//! Byte-level helpers for the fixed-layout wire format: truncating copies
//! into bounded fields, and the arena that models heap buffers whose
//! ownership is handed to the boundary and reclaimed exactly once.

use vstd::prelude::*;

verus! {

use vstd::string::StrSliceExecFns;

/// The byte sequence a string value contributes to the wire format.
pub open spec fn str_bytes(s: Seq<char>) -> Seq<u8> {
    vstd::utf8::encode_utf8(s)
}

/// The wire format terminates strings with a NUL byte, so content must not
/// contain one.
pub open spec fn nul_free(s: Seq<char>) -> bool {
    forall|i: int| 0 <= i < str_bytes(s).len() ==> str_bytes(s)[i] != 0
}

/// Number of bytes actually copied into a field of capacity `cap`.
pub open spec fn copy_len(src_len: int, cap: int) -> int {
    if src_len <= cap {
        src_len
    } else {
        cap
    }
}

/// A fixed-capacity wire field holds the truncation of the byte sequence
/// `content`, zero-padded to its full width.
pub open spec fn encoded_bytes_field(out: Seq<u8>, content: Seq<u8>, cap: int) -> bool {
    &&& out.len() == cap
    &&& forall|i: int| 0 <= i < copy_len(content.len() as int, cap) ==> out[i] == content[i]
    &&& forall|i: int| copy_len(content.len() as int, cap) <= i < cap ==> out[i] == 0u8
}

/// A fixed-capacity wire field holds the byte-level truncation of `s`,
/// zero-padded to its full width.
pub open spec fn encoded_field(out: Seq<u8>, s: Seq<char>, cap: int) -> bool {
    encoded_bytes_field(out, str_bytes(s), cap)
}

/// Copy a byte buffer, element by element.
pub fn copy_bytes(src: &Vec<u8>) -> (out: Vec<u8>)
    ensures
        out@ == src@,
{
    let mut out: Vec<u8> = Vec::new();
    let mut i: usize = 0;
    while i < src.len()
        invariant
            i <= src@.len(),
            out@ =~= src@.subrange(0, i as int),
        decreases src@.len() - i,
    {
        out.push(src[i]);
        i = i + 1;
    }
    proof {
        assert(src@.subrange(0, src@.len() as int) =~= src@);
    }
    out
}

/// A fixed-capacity wire field, initially all zero bytes.
pub fn zeroed_buf(n: usize) -> (v: Vec<u8>)
    ensures
        v@.len() == n,
        forall|i: int| 0 <= i < n ==> v@[i] == 0u8,
{
    let mut v: Vec<u8> = Vec::new();
    let mut i: usize = 0;
    while i < n
        invariant
            i <= n,
            v@.len() == i,
            forall|j: int| 0 <= j < i ==> v@[j] == 0u8,
        decreases n - i,
    {
        v.push(0u8);
        i = i + 1;
    }
    v
}

/// Copy `min(src.len(), dest.len())` bytes of `src` into the front of `dest`,
/// never writing past `dest`'s fixed length; the tail keeps its old bytes.
pub fn copy_bytes_truncated(src: &Vec<u8>, dest: &mut Vec<u8>)
    ensures
        final(dest)@.len() == old(dest)@.len(),
        forall|i: int|
            0 <= i < copy_len(src@.len() as int, old(dest)@.len() as int) ==> final(dest)@[i]
                == src@[i],
        forall|i: int|
            copy_len(src@.len() as int, old(dest)@.len() as int) <= i < old(dest)@.len()
                ==> final(dest)@[i] == old(dest)@[i],
{
    let end = if src.len() <= dest.len() {
        src.len()
    } else {
        dest.len()
    };
    let mut i: usize = 0;
    while i < end
        invariant
            i <= end,
            end == copy_len(src@.len() as int, old(dest)@.len() as int),
            end <= src@.len(),
            end <= dest@.len(),
            dest@.len() == old(dest)@.len(),
            forall|j: int| 0 <= j < i ==> dest@[j] == src@[j],
            forall|j: int| i <= j < dest@.len() ==> dest@[j] == old(dest)@[j],
        decreases end - i,
    {
        let b = src[i];
        dest[i] = b;
        i = i + 1;
    }
}

/// Encode a bounded string field: copy at most `dest.len()` bytes of `src`
/// into the front of `dest`. Truncation is a byte-level cut; the field's
/// width never changes.
pub fn trans_slice_to_array(src: &str, dest: &mut Vec<u8>)
    requires
        nul_free(src@),
    ensures
        final(dest)@.len() == old(dest)@.len(),
        forall|i: int|
            0 <= i < copy_len(str_bytes(src@).len() as int, old(dest)@.len() as int)
                ==> final(dest)@[i] == str_bytes(src@)[i],
        forall|i: int|
            copy_len(str_bytes(src@).len() as int, old(dest)@.len() as int) <= i < old(
                dest,
            )@.len() ==> final(dest)@[i] == old(dest)@[i],
{
    let bytes = src.as_bytes_vec();
    copy_bytes_truncated(&bytes, dest)
}

/// Build a fresh wire field of capacity `cap` holding the truncated,
/// zero-padded bytes of `src`.
pub fn encode_field(src: &str, cap: usize) -> (out: Vec<u8>)
    requires
        nul_free(src@),
    ensures
        encoded_field(out@, src@, cap as int),
{
    let mut buf = zeroed_buf(cap);
    trans_slice_to_array(src, &mut buf);
    buf
}

/// Owner-side model of the heap buffers whose ownership crosses the
/// boundary. Each transferred string becomes a NUL-terminated byte buffer
/// reachable through a handle (standing for the raw pointer the boundary
/// receives); a string array additionally owns one block listing its
/// elements' handles. A buffer stays live until it is reclaimed, and it can
/// be reclaimed at most once.
pub struct TransferArena {
    strings: Vec<Option<Vec<u8>>>,
    blocks: Vec<Option<Vec<usize>>>,
}

impl TransferArena {
    /// The transferred string buffers by handle; `None` marks a reclaimed one.
    pub closed spec fn strings_view(&self) -> Seq<Option<Seq<u8>>> {
        Seq::new(
            self.strings@.len(),
            |i: int|
                match self.strings@[i] {
                    Option::Some(v) => Option::Some(v@),
                    Option::None => Option::None,
                },
        )
    }

    /// The transferred pointer blocks by handle; `None` marks a reclaimed one.
    pub closed spec fn blocks_view(&self) -> Seq<Option<Seq<usize>>> {
        Seq::new(
            self.blocks@.len(),
            |i: int|
                match self.blocks@[i] {
                    Option::Some(v) => Option::Some(v@),
                    Option::None => Option::None,
                },
        )
    }

    /// Every pointer in a live block refers to a string buffer of this arena.
    pub open spec fn wf(&self) -> bool {
        forall|b: int|
            0 <= b < self.blocks_view().len() ==> ((#[trigger] self.blocks_view()[b]) matches Some(
                blk,
            ) ==> forall|j: int| 0 <= j < blk.len() ==> #[trigger] blk[j]
                < self.strings_view().len())
    }

    /// An arena with nothing transferred yet.
    pub fn new() -> (a: TransferArena)
        ensures
            a.strings_view().len() == 0,
            a.blocks_view().len() == 0,
            a.wf(),
    {
        TransferArena { strings: Vec::new(), blocks: Vec::new() }
    }

    /// Hand one string to the boundary: allocate its NUL-terminated buffer
    /// and give up ownership. The returned handle stands for the raw pointer
    /// the boundary now owns.
    pub fn transfer_str(&mut self, s: &str) -> (h: usize)
        requires
            nul_free(s@),
            old(self).wf(),
        ensures
            h == old(self).strings_view().len(),
            final(self).strings_view() == old(self).strings_view().push(
                Some(str_bytes(s@).push(0u8)),
            ),
            final(self).blocks_view() == old(self).blocks_view(),
            final(self).wf(),
    {
        let mut bytes = s.as_bytes_vec();
        bytes.push(0u8);
        let h = self.strings.len();
        self.strings.push(Some(bytes));
        proof {
            assert(self.strings_view() =~= old(self).strings_view().push(
                Some(str_bytes(s@).push(0u8)),
            ));
            assert(self.blocks_view() =~= old(self).blocks_view());
        }
        h
    }

    /// Hand a whole pointer block to the boundary. Every handle in the block
    /// must refer to a string buffer of this arena.
    pub fn transfer_block(&mut self, handles: Vec<usize>) -> (h: usize)
        requires
            old(self).wf(),
            forall|j: int| 0 <= j < handles@.len() ==> handles@[j] < old(
                self,
            ).strings_view().len(),
        ensures
            h == old(self).blocks_view().len(),
            final(self).blocks_view() == old(self).blocks_view().push(Some(handles@)),
            final(self).strings_view() == old(self).strings_view(),
            final(self).wf(),
    {
        let h = self.blocks.len();
        self.blocks.push(Some(handles));
        proof {
            assert(self.blocks_view() =~= old(self).blocks_view().push(Some(handles@)));
            assert(self.strings_view() =~= old(self).strings_view());
        }
        h
    }

    /// Count the string buffers not yet reclaimed, for balance checks.
    pub fn live_strings(&self) -> (n: usize)
        ensures
            n as int == spec_live_strings(self.strings_view()),
    {
        let mut n: usize = 0;
        let mut i: usize = 0;
        while i < self.strings.len()
            invariant
                i <= self.strings_view().len(),
                n <= i,
                n as int == spec_live_strings(self.strings_view().subrange(0, i as int)),
            decreases self.strings_view().len() - i,
        {
            proof {
                assert(self.strings_view().subrange(0, i + 1).drop_last() =~= self.strings_view()
                    .subrange(0, i as int));
            }
            if self.strings[i].is_some() {
                n = n + 1;
            }
            i = i + 1;
        }
        proof {
            assert(self.strings_view().subrange(0, self.strings_view().len() as int)
                =~= self.strings_view());
        }
        n
    }
}

/// How many entries of `strs` are still live.
pub open spec fn spec_live_strings(strs: Seq<Option<Seq<u8>>>) -> int
    decreases strs.len(),
{
    if strs.len() == 0 {
        0
    } else {
        spec_live_strings(strs.drop_last()) + if strs.last() is Some {
            1int
        } else {
            0int
        }
    }
}

/// Whether handle `h` refers to a live (not yet reclaimed) buffer.
pub open spec fn reclaim_ok(strs: Seq<Option<Seq<u8>>>, h: int) -> bool {
    0 <= h < strs.len() && strs[h] is Some
}

/// The buffers after reclaiming `h`: that entry dies, everything else stays.
/// A handle that is not live changes nothing.
pub open spec fn spec_reclaim(strs: Seq<Option<Seq<u8>>>, h: int) -> Seq<Option<Seq<u8>>> {
    if reclaim_ok(strs, h) {
        strs.update(h, None)
    } else {
        strs
    }
}

/// Whether the live buffer at `h` holds nothing besides its NUL terminator.
pub open spec fn reclaimed_empty(strs: Seq<Option<Seq<u8>>>, h: int) -> bool {
    reclaim_ok(strs, h) && (strs[h] matches Some(c) && c.len() <= 1)
}

/// Reclaim a buffer the boundary handed back. A null pointer (`None`) is a
/// no-op reported as `false`; otherwise the buffer dies and the result says
/// whether its content was empty. A handle that is out of range or already
/// reclaimed changes nothing and reports `false`: a buffer is never
/// reclaimed twice.
pub fn free_allocated_str(arena: &mut TransferArena, ptr: Option<usize>) -> (emptied: bool)
    ensures
        final(arena).blocks_view() == old(arena).blocks_view(),
        match ptr {
            Option::None => final(arena).strings_view() == old(arena).strings_view() && !emptied,
            Option::Some(h) => final(arena).strings_view() == spec_reclaim(
                old(arena).strings_view(),
                h as int,
            ) && emptied == reclaimed_empty(old(arena).strings_view(), h as int),
        },
        old(arena).wf() ==> final(arena).wf(),
{
    match ptr {
        Option::None => false,
        Option::Some(h) => {
            if h >= arena.strings.len() {
                false
            } else {
                let empt: bool;
                match &arena.strings[h] {
                    Option::None => {
                        return false;
                    },
                    Option::Some(content) => {
                        empt = content.len() <= 1;
                    },
                }
                arena.strings[h] = Option::None;
                proof {
                    assert(arena.strings_view() =~= spec_reclaim(
                        old(arena).strings_view(),
                        h as int,
                    ));
                    assert(arena.blocks_view() =~= old(arena).blocks_view());
                }
                empt
            }
        },
    }
}

/// Law: a transferred buffer is reclaimed exactly once. Reclaiming the fresh
/// handle kills only that buffer; a second reclaim of the same handle is
/// refused and changes nothing.
pub proof fn lemma_transfer_reclaimed_exactly_once(strs: Seq<Option<Seq<u8>>>, content: Seq<u8>)
    ensures
        ({
            let s1 = strs.push(Some(content));
            let h = strs.len() as int;
            let s2 = spec_reclaim(s1, h);
            &&& reclaim_ok(s1, h)
            &&& s2[h] is None
            &&& !reclaim_ok(s2, h)
            &&& spec_reclaim(s2, h) == s2
            &&& forall|j: int| 0 <= j < strs.len() ==> s2[j] == strs[j]
        }),
{
}

/// Law: a transfer raises the live-buffer count by one.
pub proof fn lemma_transfer_raises_count(strs: Seq<Option<Seq<u8>>>, content: Seq<u8>)
    ensures
        spec_live_strings(strs.push(Some(content))) == spec_live_strings(strs) + 1,
{
    assert(strs.push(Some(content)).drop_last() =~= strs);
}

/// Law: one reclaim balances one transfer in the live-buffer count.
pub proof fn lemma_reclaim_balances_count(strs: Seq<Option<Seq<u8>>>, h: int)
    requires
        reclaim_ok(strs, h),
    ensures
        spec_live_strings(spec_reclaim(strs, h)) == spec_live_strings(strs) - 1,
    decreases strs.len(),
{
    let upd = strs.update(h, None);
    if h == strs.len() - 1 {
        assert(upd.drop_last() =~= strs.drop_last());
    } else {
        assert(upd.drop_last() =~= strs.drop_last().update(h, None));
        lemma_reclaim_balances_count(strs.drop_last(), h);
    }
}

} // verus!
