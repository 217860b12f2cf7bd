//! The event parameter model: typed values, wire type tags, derivation of
//! a value's element type and arity from its shape description, and the
//! conversion of parameters into fixed-layout wire structures.

use vstd::prelude::*;

use crate::utils::{TransferArena, encoded_field, nul_free, str_bytes, zeroed_buf};

verus! {

use vstd::string::StrSliceExecFns;

/// Length limit for the name of a param.
pub const MAX_LENGTH_OF_PARAM_NAME: usize = 33;

/// Wire type tag of an event parameter.
#[derive(Copy, Clone, PartialEq, Eq, Structural, Debug)]
pub enum HiSysEventParamType {
    /// Invalid type.
    Invalid,
    /// Bool type.
    Bool,
    /// Int8 type.
    Int8,
    /// Uint8 type.
    Uint8,
    /// Int16 type.
    Int16,
    /// Uint16 type.
    Uint16,
    /// Int32 type.
    Int32,
    /// Uint32 type.
    Uint32,
    /// Int64 type.
    Int64,
    /// Uint64 type.
    Uint64,
    /// Float type, carried as its bit pattern.
    Float,
    /// Double type, carried as its bit pattern.
    Double,
    /// String type.
    ParamTypeString,
    /// Bool array type.
    BoolArray,
    /// Int8 array type.
    Int8Array,
    /// Uint8 array type.
    Uint8Array,
    /// Int16 array type.
    Int16Array,
    /// Uint16 array type.
    Uint16Array,
    /// Int32 array type.
    Int32Array,
    /// Uint32 array type.
    Uint32Array,
    /// Int64 array type.
    Int64Array,
    /// Uint64 array type.
    Uint64Array,
    /// Float array type, elements carried as bit patterns.
    FloatArray,
    /// Double array type, elements carried as bit patterns.
    DoubleArray,
    /// String array type.
    ParamTypeStringArray,
}

/// The wire code of a parameter type tag.
pub open spec fn spec_param_type_code(t: HiSysEventParamType) -> int {
    match t {
        HiSysEventParamType::Invalid => 0,
        HiSysEventParamType::Bool => 1,
        HiSysEventParamType::Int8 => 2,
        HiSysEventParamType::Uint8 => 3,
        HiSysEventParamType::Int16 => 4,
        HiSysEventParamType::Uint16 => 5,
        HiSysEventParamType::Int32 => 6,
        HiSysEventParamType::Uint32 => 7,
        HiSysEventParamType::Int64 => 8,
        HiSysEventParamType::Uint64 => 9,
        HiSysEventParamType::Float => 10,
        HiSysEventParamType::Double => 11,
        HiSysEventParamType::ParamTypeString => 12,
        HiSysEventParamType::BoolArray => 13,
        HiSysEventParamType::Int8Array => 14,
        HiSysEventParamType::Uint8Array => 15,
        HiSysEventParamType::Int16Array => 16,
        HiSysEventParamType::Uint16Array => 17,
        HiSysEventParamType::Int32Array => 18,
        HiSysEventParamType::Uint32Array => 19,
        HiSysEventParamType::Int64Array => 20,
        HiSysEventParamType::Uint64Array => 21,
        HiSysEventParamType::FloatArray => 22,
        HiSysEventParamType::DoubleArray => 23,
        HiSysEventParamType::ParamTypeStringArray => 24,
    }
}

impl HiSysEventParamType {
    /// The wire code of this type tag.
    pub fn as_code(&self) -> (c: i32)
        ensures
            c as int == spec_param_type_code(*self),
    {
        match self {
            HiSysEventParamType::Invalid => 0,
            HiSysEventParamType::Bool => 1,
            HiSysEventParamType::Int8 => 2,
            HiSysEventParamType::Uint8 => 3,
            HiSysEventParamType::Int16 => 4,
            HiSysEventParamType::Uint16 => 5,
            HiSysEventParamType::Int32 => 6,
            HiSysEventParamType::Uint32 => 7,
            HiSysEventParamType::Int64 => 8,
            HiSysEventParamType::Uint64 => 9,
            HiSysEventParamType::Float => 10,
            HiSysEventParamType::Double => 11,
            HiSysEventParamType::ParamTypeString => 12,
            HiSysEventParamType::BoolArray => 13,
            HiSysEventParamType::Int8Array => 14,
            HiSysEventParamType::Uint8Array => 15,
            HiSysEventParamType::Int16Array => 16,
            HiSysEventParamType::Uint16Array => 17,
            HiSysEventParamType::Int32Array => 18,
            HiSysEventParamType::Uint32Array => 19,
            HiSysEventParamType::Int64Array => 20,
            HiSysEventParamType::Uint64Array => 21,
            HiSysEventParamType::FloatArray => 22,
            HiSysEventParamType::DoubleArray => 23,
            HiSysEventParamType::ParamTypeStringArray => 24,
        }
    }

    /// Whether this tag is one of the array variants.
    pub open spec fn is_array_type(self) -> bool {
        match self {
            HiSysEventParamType::BoolArray => true,
            HiSysEventParamType::Int8Array => true,
            HiSysEventParamType::Uint8Array => true,
            HiSysEventParamType::Int16Array => true,
            HiSysEventParamType::Uint16Array => true,
            HiSysEventParamType::Int32Array => true,
            HiSysEventParamType::Uint32Array => true,
            HiSysEventParamType::Int64Array => true,
            HiSysEventParamType::Uint64Array => true,
            HiSysEventParamType::FloatArray => true,
            HiSysEventParamType::DoubleArray => true,
            HiSysEventParamType::ParamTypeStringArray => true,
            _ => false,
        }
    }
}

/// A parameter's value. Scalars and owned arrays are carried directly;
/// floating-point values are carried as their bit patterns, since only the
/// bits cross the boundary. A string array is carried as the handle of the
/// pointer block that [`build_string_arrays`] transferred to the boundary.
#[derive(Clone, PartialEq, Debug)]
pub enum HiSysEventParamValue {
    /// Bool value.
    Bool(bool),
    /// Int8 value.
    Int8(i8),
    /// Uint8 value.
    Uint8(u8),
    /// Int16 value.
    Int16(i16),
    /// Uint16 value.
    Uint16(u16),
    /// Int32 value.
    Int32(i32),
    /// Uint32 value.
    Uint32(u32),
    /// Int64 value.
    Int64(i64),
    /// Uint64 value.
    Uint64(u64),
    /// Float value as its bit pattern.
    FloatBits(u32),
    /// Double value as its bit pattern.
    DoubleBits(u64),
    /// String value.
    Str(String),
    /// Bool array.
    BoolArray(Vec<bool>),
    /// Int8 array.
    Int8Array(Vec<i8>),
    /// Uint8 array.
    Uint8Array(Vec<u8>),
    /// Int16 array.
    Int16Array(Vec<i16>),
    /// Uint16 array.
    Uint16Array(Vec<u16>),
    /// Int32 array.
    Int32Array(Vec<i32>),
    /// Uint32 array.
    Uint32Array(Vec<u32>),
    /// Int64 array.
    Int64Array(Vec<i64>),
    /// Uint64 array.
    Uint64Array(Vec<u64>),
    /// Float array, elements as bit patterns.
    FloatBitsArray(Vec<u32>),
    /// Double array, elements as bit patterns.
    DoubleBitsArray(Vec<u64>),
    /// Handle of the transferred pointer block of a string array.
    StrArrayRef(usize),
}

/// Whether a value carries data of the given type tag.
pub open spec fn value_matches_type(v: &HiSysEventParamValue, t: HiSysEventParamType) -> bool {
    match v {
        HiSysEventParamValue::Bool(_) => t == HiSysEventParamType::Bool,
        HiSysEventParamValue::Int8(_) => t == HiSysEventParamType::Int8,
        HiSysEventParamValue::Uint8(_) => t == HiSysEventParamType::Uint8,
        HiSysEventParamValue::Int16(_) => t == HiSysEventParamType::Int16,
        HiSysEventParamValue::Uint16(_) => t == HiSysEventParamType::Uint16,
        HiSysEventParamValue::Int32(_) => t == HiSysEventParamType::Int32,
        HiSysEventParamValue::Uint32(_) => t == HiSysEventParamType::Uint32,
        HiSysEventParamValue::Int64(_) => t == HiSysEventParamType::Int64,
        HiSysEventParamValue::Uint64(_) => t == HiSysEventParamType::Uint64,
        HiSysEventParamValue::FloatBits(_) => t == HiSysEventParamType::Float,
        HiSysEventParamValue::DoubleBits(_) => t == HiSysEventParamType::Double,
        HiSysEventParamValue::Str(_) => t == HiSysEventParamType::ParamTypeString,
        HiSysEventParamValue::BoolArray(_) => t == HiSysEventParamType::BoolArray,
        HiSysEventParamValue::Int8Array(_) => t == HiSysEventParamType::Int8Array,
        HiSysEventParamValue::Uint8Array(_) => t == HiSysEventParamType::Uint8Array,
        HiSysEventParamValue::Int16Array(_) => t == HiSysEventParamType::Int16Array,
        HiSysEventParamValue::Uint16Array(_) => t == HiSysEventParamType::Uint16Array,
        HiSysEventParamValue::Int32Array(_) => t == HiSysEventParamType::Int32Array,
        HiSysEventParamValue::Uint32Array(_) => t == HiSysEventParamType::Uint32Array,
        HiSysEventParamValue::Int64Array(_) => t == HiSysEventParamType::Int64Array,
        HiSysEventParamValue::Uint64Array(_) => t == HiSysEventParamType::Uint64Array,
        HiSysEventParamValue::FloatBitsArray(_) => t == HiSysEventParamType::FloatArray,
        HiSysEventParamValue::DoubleBitsArray(_) => t == HiSysEventParamType::DoubleArray,
        HiSysEventParamValue::StrArrayRef(_) => t == HiSysEventParamType::ParamTypeStringArray,
    }
}

/// The element count an owned array value carries, if it is one.
pub open spec fn value_arity(v: &HiSysEventParamValue) -> Option<int> {
    match v {
        HiSysEventParamValue::BoolArray(a) => Some(a@.len() as int),
        HiSysEventParamValue::Int8Array(a) => Some(a@.len() as int),
        HiSysEventParamValue::Uint8Array(a) => Some(a@.len() as int),
        HiSysEventParamValue::Int16Array(a) => Some(a@.len() as int),
        HiSysEventParamValue::Uint16Array(a) => Some(a@.len() as int),
        HiSysEventParamValue::Int32Array(a) => Some(a@.len() as int),
        HiSysEventParamValue::Uint32Array(a) => Some(a@.len() as int),
        HiSysEventParamValue::Int64Array(a) => Some(a@.len() as int),
        HiSysEventParamValue::Uint64Array(a) => Some(a@.len() as int),
        HiSysEventParamValue::FloatBitsArray(a) => Some(a@.len() as int),
        HiSysEventParamValue::DoubleBitsArray(a) => Some(a@.len() as int),
        _ => None,
    }
}

/// A customized event parameter.
#[derive(Clone, PartialEq, Debug)]
pub struct HiSysEventParam {
    /// Param key.
    pub param_name: String,
    /// Param type.
    pub param_type: HiSysEventParamType,
    /// Param value.
    pub param_value: HiSysEventParamValue,
    /// Element count of a param with array type; zero for scalars.
    pub array_size: usize,
}

impl HiSysEventParam {
    /// The parameter invariant: the value carries data of the declared type,
    /// the array size is positive exactly for array types and matches the
    /// carried element count, and the name is NUL-free wire content.
    pub open spec fn wf(&self) -> bool {
        &&& value_matches_type(&self.param_value, self.param_type)
        &&& (self.array_size > 0 <==> self.param_type.is_array_type())
        &&& (value_matches_type(&self.param_value, self.param_type) ==> match value_arity(
            &self.param_value,
        ) {
            Some(n) => self.array_size as int == n,
            None => true,
        })
        &&& self.array_size <= u32::MAX
        &&& nul_free(self.param_name@)
    }
}

/// The fixed-layout wire form of one event parameter.
#[derive(Clone, PartialEq, Debug)]
pub struct HiSysEventParamWrapper {
    /// Param name, truncated into a fixed field.
    pub param_name: Vec<u8>,
    /// Wire code of the param type.
    pub param_type: i32,
    /// Param value, copied by value.
    pub param_value: HiSysEventParamValue,
    /// Element count of a param with array type.
    pub array_size: u32,
}

/// The wire form `w` encodes the parameter `p`.
pub open spec fn param_encodes(w: HiSysEventParamWrapper, p: HiSysEventParam) -> bool {
    &&& encoded_field(w.param_name@, p.param_name@, MAX_LENGTH_OF_PARAM_NAME as int)
    &&& w.param_type as int == spec_param_type_code(p.param_type)
    &&& w.param_value == p.param_value
    &&& w.array_size == p.array_size as u32
}

/// Translate parameters into their fixed-layout wire forms, in order: the
/// name is cut to its field width and zero-padded, the type tag becomes its
/// wire code, and the value and element count are copied by value.
pub fn convert_param_to_wrapper(src: Vec<HiSysEventParam>) -> (dest: Vec<HiSysEventParamWrapper>)
    requires
        forall|i: int| 0 <= i < src@.len() ==> (#[trigger] src@[i]).wf(),
    ensures
        dest@.len() == src@.len(),
        forall|i: int| 0 <= i < src@.len() ==> param_encodes(#[trigger] dest@[i], src@[i]),
{
    let mut rest = src;
    let mut dest: Vec<HiSysEventParamWrapper> = Vec::new();
    let n = rest.len();
    let mut i: usize = 0;
    while i < n
        invariant
            i <= n,
            n == src@.len(),
            rest@ =~= src@.subrange(i as int, n as int),
            dest@.len() == i,
            forall|j: int| 0 <= j < i ==> param_encodes(#[trigger] dest@[j], src@[j]),
            forall|j: int| 0 <= j < src@.len() ==> (#[trigger] src@[j]).wf(),
        decreases n - i,
    {
        let p = rest.remove(0);
        proof {
            assert(p == src@[i as int]);
            assert(rest@ =~= src@.subrange(i + 1, n as int));
        }
        let mut name_buf = zeroed_buf(MAX_LENGTH_OF_PARAM_NAME);
        crate::utils::trans_slice_to_array(p.param_name.as_str(), &mut name_buf);
        let w = HiSysEventParamWrapper {
            param_name: name_buf,
            param_type: p.param_type.as_code(),
            param_value: p.param_value,
            array_size: p.array_size as u32,
        };
        dest.push(w);
        i = i + 1;
    }
    dest
}

/// Build an event parameter of string-array type: every element is
/// heap-transferred to the boundary as a NUL-terminated buffer, then one
/// pointer block holding their handles in element order is transferred
/// too. The parameter carries the block's handle and the element count.
pub fn build_string_arrays(
    arena: &mut TransferArena,
    param_name: &str,
    param_value: &Vec<String>,
) -> (p: HiSysEventParam)
    requires
        old(arena).wf(),
        nul_free(param_name@),
        forall|i: int| 0 <= i < param_value@.len() ==> nul_free((#[trigger] param_value@[i])@),
        param_value@.len() > 0,
        param_value@.len() <= u32::MAX,
    ensures
        final(arena).wf(),
        final(arena).strings_view().len() == old(arena).strings_view().len()
            + param_value@.len(),
        forall|i: int|
            0 <= i < old(arena).strings_view().len() ==> final(arena).strings_view()[i] == old(
                arena,
            ).strings_view()[i],
        forall|i: int|
            0 <= i < param_value@.len() ==> final(arena).strings_view()[old(
                arena,
            ).strings_view().len() + i] == Some(
                str_bytes((#[trigger] param_value@[i])@).push(0u8),
            ),
        final(arena).blocks_view() == old(arena).blocks_view().push(
            Some(
                Seq::new(
                    param_value@.len(),
                    |i: int| (old(arena).strings_view().len() + i) as usize,
                ),
            ),
        ),
        p.param_name@ == param_name@,
        p.param_type == HiSysEventParamType::ParamTypeStringArray,
        p.param_value == HiSysEventParamValue::StrArrayRef(
            old(arena).blocks_view().len() as usize,
        ),
        p.array_size == param_value@.len(),
        p.wf(),
{
    let ghost base = old(arena).strings_view().len() as int;
    let mut handles: Vec<usize> = Vec::new();
    let mut i: usize = 0;
    while i < param_value.len()
        invariant
            i <= param_value@.len(),
            param_value@.len() <= u32::MAX,
            forall|j: int| 0 <= j < param_value@.len() ==> nul_free((#[trigger] param_value@[j])@),
            arena.wf(),
            base == old(arena).strings_view().len(),
            arena.blocks_view() == old(arena).blocks_view(),
            arena.strings_view().len() == base + i,
            forall|j: int|
                0 <= j < base ==> arena.strings_view()[j] == old(arena).strings_view()[j],
            forall|j: int|
                0 <= j < i ==> arena.strings_view()[base + j] == Some(
                    str_bytes((#[trigger] param_value@[j])@).push(0u8),
                ),
            handles@.len() == i,
            forall|j: int| 0 <= j < i ==> (#[trigger] handles@[j]) as int == base + j,
        decreases param_value@.len() - i,
    {
        let h = arena.transfer_str(param_value[i].as_str());
        handles.push(h);
        i = i + 1;
    }
    proof {
        assert(handles@ =~= Seq::new(param_value@.len(), |j: int| (base + j) as usize));
    }
    let element_count = param_value.len();
    let block = arena.transfer_block(handles);
    HiSysEventParam {
        param_name: param_name.to_owned(),
        param_type: HiSysEventParamType::ParamTypeStringArray,
        param_value: HiSysEventParamValue::StrArrayRef(block),
        array_size: element_count,
    }
}

/// Write one system event: encode the parameters into their fixed-layout
/// wire forms and invoke the boundary's write entry point with the
/// call-site metadata. The boundary's status code is opaque to this layer
/// and returned unchanged.
pub fn write<B: crate::sys_event_manager::SysEventBoundary>(
    boundary: &mut B,
    func: &str,
    line: u64,
    event_domain: &str,
    event_name: &str,
    event_type: i32,
    event_params: Vec<HiSysEventParam>,
) -> (status: i32)
    requires
        nul_free(func@),
        nul_free(event_domain@),
        nul_free(event_name@),
        forall|i: int| 0 <= i < event_params@.len() ==> (#[trigger] event_params@[i]).wf(),
{
    let param_wrappers = convert_param_to_wrapper(event_params);
    boundary.write_entry(func, line, event_domain, event_name, event_type, &param_wrappers)
}

// ---------------------------------------------------------------------------
// Type/arity derivation from a value's shape description.
// ---------------------------------------------------------------------------
/// Strip one leading reference mark, if present.
pub open spec fn strip_ref(s: Seq<char>) -> Seq<char> {
    if s.len() > 0 && s[0] == '&' {
        s.subrange(1, s.len() as int)
    } else {
        s
    }
}

/// Whether `c` is a decimal digit.
pub open spec fn is_digit(c: char) -> bool {
    48 <= c as u32 <= 57
}

/// The numeric value of a decimal digit.
pub open spec fn digit_val(c: char) -> int {
    (c as u32) as int - 48
}

/// Whether every character of `s` is a decimal digit.
pub open spec fn all_digits(s: Seq<char>) -> bool {
    forall|i: int| 0 <= i < s.len() ==> is_digit(#[trigger] s[i])
}

/// The decimal value of a digit string.
pub open spec fn digits_val(s: Seq<char>) -> int
    decreases s.len(),
{
    if s.len() == 0 {
        0
    } else {
        digits_val(s.drop_last()) * 10 + digit_val(s.last())
    }
}

/// `i` is the position of the first space of `s`.
pub open spec fn is_first_space(s: Seq<char>, i: int) -> bool {
    &&& 0 <= i < s.len()
    &&& s[i] == ' '
    &&& forall|j: int| 0 <= j < i ==> s[j] != ' '
}

/// `s` contains a space.
pub open spec fn has_space(s: Seq<char>) -> bool {
    exists|i: int| is_first_space(s, i)
}

/// The position of the first space of `s`.
pub open spec fn first_space(s: Seq<char>) -> int {
    choose|i: int| is_first_space(s, i)
}

/// `i` is the position of the last semicolon of `s` before `end`.
pub open spec fn is_last_semi_before(s: Seq<char>, end: int, i: int) -> bool {
    &&& 0 <= i < end <= s.len()
    &&& s[i] == ';'
    &&& forall|j: int| i < j < end ==> s[j] != ';'
}

/// `s` contains a semicolon before `end`.
pub open spec fn has_semi_before(s: Seq<char>, end: int) -> bool {
    exists|i: int| is_last_semi_before(s, end, i)
}

/// The position of the last semicolon of `s` before `end`.
pub open spec fn last_semi_before(s: Seq<char>, end: int) -> int {
    choose|i: int| is_last_semi_before(s, end, i)
}

/// The digit substring of an array shape: what stands between the
/// element/length split and the closing character.
pub open spec fn array_digits(t: Seq<char>) -> Seq<char> {
    t.subrange(first_space(t) + 1, t.len() - 1)
}

/// The element type name of an array shape, unwrapped from a reference mark
/// if the element is referenced.
pub open spec fn array_elem(t: Seq<char>) -> Seq<char> {
    if t[1] == '&' {
        t.subrange(2, last_semi_before(t, first_space(t)))
    } else {
        t.subrange(1, last_semi_before(t, first_space(t)))
    }
}

/// A shape description [`parse_type_len`] accepts: nonempty; a reference
/// mark only on a nonempty remainder; and, for an array shape, a length
/// delimiter, an element/length split, and a nonempty in-range digit string.
/// A malformed shape is a construction-time caller error, never a
/// recoverable condition, so it is excluded here rather than reported.
pub open spec fn shape_wf(s: Seq<char>) -> bool {
    &&& s.len() > 0
    &&& (s[0] == '&' ==> s.len() > 1)
    &&& ({
        let t = strip_ref(s);
        t[0] == '[' ==> {
            &&& t.len() >= 2
            &&& has_space(t)
            &&& has_semi_before(t, first_space(t))
            &&& first_space(t) + 2 < t.len()
            &&& array_digits(t).len() > 0
            &&& all_digits(array_digits(t))
            &&& digits_val(array_digits(t)) <= usize::MAX as int
            &&& (t[1] == '&' ==> last_semi_before(t, first_space(t)) >= 2)
        }
    })
}

/// The element type name a shape derives.
pub open spec fn shape_elem(s: Seq<char>) -> Seq<char> {
    let t = strip_ref(s);
    if t[0] == '[' {
        array_elem(t)
    } else {
        strip_ref(t)
    }
}

/// The arity a shape derives: the array length, or zero for a scalar.
pub open spec fn shape_arity(s: Seq<char>) -> int {
    let t = strip_ref(s);
    if t[0] == '[' {
        digits_val(array_digits(t))
    } else {
        0
    }
}

proof fn lemma_first_space_unique(s: Seq<char>, i: int)
    requires
        is_first_space(s, i),
    ensures
        has_space(s),
        first_space(s) == i,
{
    assert(has_space(s));
    let c = first_space(s);
    assert(is_first_space(s, c));
    if c < i {
        assert(s[c] != ' ');
        assert(false);
    }
    if i < c {
        assert(s[i] != ' ');
        assert(false);
    }
}

proof fn lemma_last_semi_unique(s: Seq<char>, end: int, i: int)
    requires
        is_last_semi_before(s, end, i),
    ensures
        has_semi_before(s, end),
        last_semi_before(s, end) == i,
{
    assert(has_semi_before(s, end));
    let c = last_semi_before(s, end);
    assert(is_last_semi_before(s, end, c));
    if c < i {
        assert(s[i] != ';');
        assert(false);
    }
    if i < c {
        assert(s[c] != ';');
        assert(false);
    }
}

proof fn lemma_digits_val_nonneg(s: Seq<char>)
    requires
        all_digits(s),
    ensures
        digits_val(s) >= 0,
    decreases s.len(),
{
    if s.len() > 0 {
        assert(all_digits(s.drop_last()));
        lemma_digits_val_nonneg(s.drop_last());
    }
}

proof fn lemma_digits_prefix_le(s: Seq<char>, i: int)
    requires
        all_digits(s),
        0 <= i <= s.len(),
    ensures
        digits_val(s.subrange(0, i)) <= digits_val(s),
    decreases s.len() - i,
{
    if i == s.len() {
        assert(s.subrange(0, i) =~= s);
    } else {
        let p = s.subrange(0, i);
        let q = s.subrange(0, i + 1);
        assert(q.drop_last() =~= p);
        assert(q.last() == s[i]);
        assert(all_digits(p));
        lemma_digits_val_nonneg(p);
        assert(digits_val(q) == digits_val(p) * 10 + digit_val(s[i]));
        assert(digits_val(p) <= digits_val(q));
        lemma_digits_prefix_le(s, i + 1);
    }
}

/// Derive the element type name and array length from a value's shape
/// description: `"T"` and `"&T"` are scalars with arity 0, while
/// `"[T; N]"` — optionally behind a reference mark, or with a referenced
/// element type — is an array of `N` elements.
pub fn parse_type_len(type_desc: &str) -> (r: (String, usize))
    requires
        shape_wf(type_desc@),
    ensures
        r.0@ == shape_elem(type_desc@),
        r.1 as int == shape_arity(type_desc@),
{
    let n0 = type_desc.unicode_len();
    let t: &str = if type_desc.get_char(0) == '&' {
        type_desc.substring_char(1, n0)
    } else {
        type_desc
    };
    proof {
        assert(t@ =~= strip_ref(type_desc@));
    }
    let n = t.unicode_len();
    if t.get_char(0) != '[' {
        // not an array
        let elem: &str = if t.get_char(0) == '&' {
            // one more reference mark to unwrap
            t.substring_char(1, n)
        } else {
            t
        };
        proof {
            assert(elem@ =~= strip_ref(t@));
        }
        return (elem.to_owned(), 0);
    }
    // find the first space: the element/length split
    proof {
        assert(is_first_space(t@, first_space(t@)));
    }
    let mut fs: usize = 0;
    while t.get_char(fs) != ' '
        invariant
            shape_wf(type_desc@),
            t@ == strip_ref(type_desc@),
            t@[0] == '[',
            n == t@.len(),
            is_first_space(t@, first_space(t@)),
            0 <= fs <= first_space(t@),
            forall|j: int| 0 <= j < fs ==> t@[j] != ' ',
        decreases first_space(t@) - fs,
    {
        proof {
            if fs == first_space(t@) {
                assert(t@[fs as int] == ' ');
                assert(false);
            }
        }
        fs = fs + 1;
    }
    proof {
        assert(fs == first_space(t@));
    }
    // find the last semicolon before the split: the element's end
    let mut ve: usize = 0;
    let mut j: usize = 0;
    while j < fs
        invariant
            j <= fs,
            fs == first_space(t@),
            fs < t@.len(),
            n == t@.len(),
            t@ == strip_ref(type_desc@),
            shape_wf(type_desc@),
            t@[0] == '[',
            (ve == 0 && forall|k: int| 0 <= k < j ==> t@[k] != ';') || (ve < j && t@[ve as int]
                == ';' && forall|k: int| ve < k < j ==> t@[k] != ';'),
        decreases fs - j,
    {
        if t.get_char(j) == ';' {
            ve = j;
        }
        j = j + 1;
    }
    proof {
        assert(is_last_semi_before(t@, fs as int, last_semi_before(t@, fs as int)));
        if ve == 0 && forall|k: int| 0 <= k < fs ==> t@[k] != ';' {
            assert(t@[last_semi_before(t@, fs as int)] == ';');
            assert(false);
        }
        assert(is_last_semi_before(t@, fs as int, ve as int));
        lemma_last_semi_unique(t@, fs as int, ve as int);
        assert(ve as int == last_semi_before(t@, fs as int));
        if ve == 0 {
            assert(t@[0] == '[');
            assert(false);
        }
    }
    // parse the decimal length between the split and the closing character
    let ghost dgs = array_digits(t@);
    let ds = fs + 1;
    let de = n - 1;
    proof {
        assert(dgs =~= t@.subrange(ds as int, de as int));
        assert(dgs.len() > 0);
    }
    let mut acc: usize = 0;
    let mut k = ds;
    while k < de
        invariant
            ds <= k <= de,
            ds == first_space(t@) + 1,
            de == t@.len() - 1,
            n == t@.len(),
            t@ == strip_ref(type_desc@),
            dgs == array_digits(t@),
            dgs =~= t@.subrange(ds as int, de as int),
            all_digits(dgs),
            digits_val(dgs) <= usize::MAX as int,
            acc as int == digits_val(t@.subrange(ds as int, k as int)),
        decreases de - k,
    {
        let c = t.get_char(k);
        proof {
            assert(dgs[k - ds] == t@[k as int]);
            assert(is_digit(c));
            let p = t@.subrange(ds as int, k as int);
            let q = t@.subrange(ds as int, k as int + 1);
            assert(q.drop_last() =~= p);
            assert(q.last() == t@[k as int]);
            assert(q =~= dgs.subrange(0, k as int + 1 - ds));
            lemma_digits_prefix_le(dgs, k as int + 1 - ds);
            assert(digits_val(q) <= digits_val(dgs));
            assert(all_digits(p));
            lemma_digits_val_nonneg(p);
        }
        let d = (c as u32) - 48;
        acc = acc * 10 + (d as usize);
        k = k + 1;
    }
    proof {
        assert(t@.subrange(ds as int, de as int) =~= dgs);
        assert(acc as int == digits_val(dgs));
    }
    // cut out the element type name, unwrapping a referenced element
    let start: usize = if t.get_char(1) == '&' {
        2
    } else {
        1
    };
    let elem = t.substring_char(start, ve);
    proof {
        assert(elem@ =~= array_elem(t@));
    }
    (elem.to_owned(), acc)
}

/// Law: a scalar shape — a bare element name, possibly behind one or even
/// two reference marks — derives the bare name with arity 0.
pub proof fn lemma_derive_scalar(t: Seq<char>)
    requires
        t.len() > 0,
        t[0] != '&',
        t[0] != '[',
    ensures
        shape_wf(t) && shape_elem(t) == t && shape_arity(t) == 0,
        ({
            let s2 = seq!['&'] + t;
            shape_wf(s2) && shape_elem(s2) == t && shape_arity(s2) == 0
        }),
        ({
            let s3 = seq!['&', '&'] + t;
            shape_wf(s3) && shape_elem(s3) == t && shape_arity(s3) == 0
        }),
{
    assert(strip_ref(t) == t);
    let s2 = seq!['&'] + t;
    assert(s2[0] == '&');
    assert(strip_ref(s2) =~= t);
    let s3 = seq!['&', '&'] + t;
    assert(s3[0] == '&');
    assert(strip_ref(s3) =~= s2);
    assert(strip_ref(strip_ref(s3)) == t);
}

/// Law: an array shape `[elem; digits]` — optionally behind a reference
/// mark — derives the bare element name with the decimal value of `digits`
/// as its arity.
#[verifier::rlimit(60)]
pub proof fn lemma_derive_array(elem: Seq<char>, digits: Seq<char>)
    requires
        elem.len() > 0,
        elem[0] != '&',
        forall|i: int| 0 <= i < elem.len() ==> elem[i] != ' ',
        digits.len() > 0,
        all_digits(digits),
        digits_val(digits) <= usize::MAX as int,
    ensures
        ({
            let s = seq!['['] + elem + seq![';', ' '] + digits + seq![']'];
            shape_wf(s) && shape_elem(s) == elem && shape_arity(s) == digits_val(digits)
        }),
        ({
            let s = seq!['['] + elem + seq![';', ' '] + digits + seq![']'];
            let s2 = seq!['&'] + s;
            shape_wf(s2) && shape_elem(s2) == elem && shape_arity(s2) == digits_val(digits)
        }),
{
    let s = seq!['['] + elem + seq![';', ' '] + digits + seq![']'];
    let el = elem.len() as int;
    let dl = digits.len() as int;
    assert(s.len() == el + dl + 4);
    assert(s[0] == '[');
    assert forall|i: int| 1 <= i <= el implies s[i] == elem[i - 1] by {}
    assert(s[el + 1] == ';');
    assert(s[el + 2] == ' ');
    assert forall|i: int| 0 <= i < dl implies s[el + 3 + i] == digits[i] by {}
    assert(s[s.len() - 1] == ']');
    assert(strip_ref(s) == s);
    // the appended space is the first: nothing before it is a space
    assert forall|j: int| 0 <= j < el + 2 implies s[j] != ' ' by {
        if 1 <= j <= el {
            assert(s[j] == elem[j - 1]);
        }
    }
    assert(is_first_space(s, el + 2));
    lemma_first_space_unique(s, el + 2);
    // the appended semicolon is the last one before the space
    assert(is_last_semi_before(s, el + 2, el + 1));
    lemma_last_semi_unique(s, el + 2, el + 1);
    // the digit substring is exactly `digits`
    assert(array_digits(s) =~= digits);
    // the element substring is exactly `elem`
    assert(s[1] == elem[0]);
    assert(array_elem(s) =~= elem);
    assert(shape_wf(s));
    // behind a reference mark, the shape first unwraps to `s`
    let s2 = seq!['&'] + s;
    assert(s2[0] == '&');
    assert(strip_ref(s2) =~= s);
    assert(strip_ref(s2) == s);
}

/// Law: an array shape with a referenced element type, `[&elem; digits]`,
/// unwraps the element's reference mark: it derives the bare element name
/// with the decimal value of `digits` as its arity.
#[verifier::rlimit(60)]
pub proof fn lemma_derive_array_ref_elem(elem: Seq<char>, digits: Seq<char>)
    requires
        elem.len() > 0,
        forall|i: int| 0 <= i < elem.len() ==> elem[i] != ' ',
        digits.len() > 0,
        all_digits(digits),
        digits_val(digits) <= usize::MAX as int,
    ensures
        ({
            let s = seq!['[', '&'] + elem + seq![';', ' '] + digits + seq![']'];
            shape_wf(s) && shape_elem(s) == elem && shape_arity(s) == digits_val(digits)
        }),
{
    let s = seq!['[', '&'] + elem + seq![';', ' '] + digits + seq![']'];
    let el = elem.len() as int;
    let dl = digits.len() as int;
    assert(s.len() == el + dl + 5);
    assert(s[0] == '[');
    assert(s[1] == '&');
    assert forall|i: int| 2 <= i <= el + 1 implies s[i] == elem[i - 2] by {}
    assert(s[el + 2] == ';');
    assert(s[el + 3] == ' ');
    assert forall|i: int| 0 <= i < dl implies s[el + 4 + i] == digits[i] by {}
    assert(s[s.len() - 1] == ']');
    assert(strip_ref(s) == s);
    assert forall|j: int| 0 <= j < el + 3 implies s[j] != ' ' by {
        if 2 <= j <= el + 1 {
            assert(s[j] == elem[j - 2]);
        }
    }
    assert(is_first_space(s, el + 3));
    lemma_first_space_unique(s, el + 3);
    assert(is_last_semi_before(s, el + 3, el + 2));
    lemma_last_semi_unique(s, el + 3, el + 2);
    assert(array_digits(s) =~= digits);
    assert(array_elem(s) =~= elem);
    assert(shape_wf(s));
}

} // verus!
