//! The wire layout of a uniform record.
//!
//! A record is a list of fields in declared order. Scalars take four bytes
//! and are aligned to four, a two-component vector takes eight bytes and is
//! aligned to eight, a four-component vector takes sixteen bytes and is
//! aligned to sixteen. Each field starts at the first multiple of its
//! alignment at or after the end of the field before it, the bytes skipped
//! are zero, and the record ends at the next multiple of sixteen. Every
//! component is written least significant byte first.
use vstd::prelude::*;

verus! {

/// The size of every record is a multiple of this many bytes.
pub const RECORD_ALIGNMENT: usize = 16;

/// What a field of a record holds.
#[derive(Clone, Copy, Debug, PartialEq, Eq)]
pub enum FieldKind {
    /// One binary32 number.
    Float,
    /// One unsigned 32-bit integer.
    Uint,
    /// Two binary32 numbers.
    Vec2,
    /// Four binary32 numbers.
    Vec4,
}

/// A field's value. Binary32 components are given by their bit patterns.
#[derive(Clone, Copy, Debug, PartialEq, Eq)]
pub enum UniformValue {
    Float(u32),
    Uint(u32),
    Vec2(u32, u32),
    Vec4(u32, u32, u32, u32),
}

/// Why a list of fields is no record.
#[derive(Clone, Copy, Debug, PartialEq, Eq)]
pub enum LayoutError {
    /// A record has at least one field.
    EmptyRecord,
    /// The record's size does not fit in `usize`.
    TooLarge,
}

/// The alignment of a field of this kind, in bytes.
pub open spec fn alignment_of(kind: FieldKind) -> int {
    match kind {
        FieldKind::Float => 4,
        FieldKind::Uint => 4,
        FieldKind::Vec2 => 8,
        FieldKind::Vec4 => 16,
    }
}

/// The size of a field of this kind, in bytes.
pub open spec fn size_of(kind: FieldKind) -> int {
    match kind {
        FieldKind::Float => 4,
        FieldKind::Uint => 4,
        FieldKind::Vec2 => 8,
        FieldKind::Vec4 => 16,
    }
}

/// The bytes to skip at `offset` to reach a multiple of `alignment`.
pub open spec fn padding_for(offset: int, alignment: int) -> int {
    if offset % alignment == 0 {
        0
    } else {
        alignment - offset % alignment
    }
}

/// The first multiple of `alignment` at or after `offset`.
pub open spec fn rounded_up(offset: int, alignment: int) -> int {
    offset + padding_for(offset, alignment)
}

/// The bytes that the first `count` fields occupy, from the start of the
/// record to the end of the last of them.
pub open spec fn extent(kinds: Seq<FieldKind>, count: int) -> int
    decreases count,
{
    if count <= 0 {
        0
    } else {
        rounded_up(extent(kinds, count - 1), alignment_of(kinds[count - 1])) + size_of(
            kinds[count - 1],
        )
    }
}

/// Where field `index` starts.
pub open spec fn field_offset(kinds: Seq<FieldKind>, index: int) -> int {
    rounded_up(extent(kinds, index), alignment_of(kinds[index]))
}

/// The size of the whole record, zero for the empty list.
pub open spec fn record_size(kinds: Seq<FieldKind>) -> int {
    rounded_up(extent(kinds, kinds.len() as int), RECORD_ALIGNMENT as int)
}

/// The kinds of a list of values, in order.
pub open spec fn kinds_of(values: Seq<UniformValue>) -> Seq<FieldKind> {
    Seq::new(values.len(), |i: int| values[i].kind())
}

/// The four bytes of `x`, least significant first.
pub open spec fn le_bytes(x: u32) -> Seq<u8> {
    seq![
        (x % 0x100) as u8,
        (x / 0x100 % 0x100) as u8,
        (x / 0x1_0000 % 0x100) as u8,
        (x / 0x100_0000) as u8,
    ]
}

/// `count` zero bytes.
pub open spec fn zeros(count: int) -> Seq<u8> {
    Seq::new(count as nat, |i: int| 0u8)
}

/// `bytes` followed by zero bytes up to the next multiple of `alignment`.
pub open spec fn padded(bytes: Seq<u8>, alignment: int) -> Seq<u8> {
    bytes + zeros(padding_for(bytes.len() as int, alignment))
}

/// The bytes of the first `count` fields: each field's bytes follow those
/// of the fields before it, padded to the field's alignment.
pub open spec fn encode_fields(values: Seq<UniformValue>, count: int) -> Seq<u8>
    decreases count,
{
    if count <= 0 {
        Seq::empty()
    } else {
        padded(encode_fields(values, count - 1), alignment_of(values[count - 1].kind()))
            + values[count - 1].bytes()
    }
}

/// The bytes of the record that holds `values`.
pub open spec fn encode(values: Seq<UniformValue>) -> Seq<u8> {
    padded(encode_fields(values, values.len() as int), RECORD_ALIGNMENT as int)
}

impl FieldKind {
    /// The alignment of a field of this kind, in bytes.
    pub fn alignment(self) -> (bytes: usize)
        ensures
            bytes == alignment_of(self),
    {
        match self {
            FieldKind::Float => 4,
            FieldKind::Uint => 4,
            FieldKind::Vec2 => 8,
            FieldKind::Vec4 => 16,
        }
    }

    /// The size of a field of this kind, in bytes.
    pub fn size(self) -> (bytes: usize)
        ensures
            bytes == size_of(self),
    {
        match self {
            FieldKind::Float => 4,
            FieldKind::Uint => 4,
            FieldKind::Vec2 => 8,
            FieldKind::Vec4 => 16,
        }
    }
}

impl UniformValue {
    /// What kind of field holds this value.
    pub open spec fn kind(self) -> FieldKind {
        match self {
            UniformValue::Float(_) => FieldKind::Float,
            UniformValue::Uint(_) => FieldKind::Uint,
            UniformValue::Vec2(_, _) => FieldKind::Vec2,
            UniformValue::Vec4(_, _, _, _) => FieldKind::Vec4,
        }
    }

    /// The value's bytes: its components in order, each least significant
    /// byte first.
    pub open spec fn bytes(self) -> Seq<u8> {
        match self {
            UniformValue::Float(x) => le_bytes(x),
            UniformValue::Uint(x) => le_bytes(x),
            UniformValue::Vec2(x, y) => le_bytes(x) + le_bytes(y),
            UniformValue::Vec4(x, y, z, w) => le_bytes(x) + le_bytes(y) + le_bytes(z) + le_bytes(w),
        }
    }

    /// What kind of field holds this value.
    pub fn field_kind(&self) -> (kind: FieldKind)
        ensures
            kind == self.kind(),
    {
        match self {
            UniformValue::Float(_) => FieldKind::Float,
            UniformValue::Uint(_) => FieldKind::Uint,
            UniformValue::Vec2(_, _) => FieldKind::Vec2,
            UniformValue::Vec4(_, _, _, _) => FieldKind::Vec4,
        }
    }

    /// Appends the value's bytes to `out`.
    pub fn write(&self, out: &mut Vec<u8>)
        ensures
            final(out)@ == old(out)@ + self.bytes(),
    {
        match self {
            UniformValue::Float(x) => {
                push_le(out, *x);
            },
            UniformValue::Uint(x) => {
                push_le(out, *x);
            },
            UniformValue::Vec2(x, y) => {
                push_le(out, *x);
                push_le(out, *y);
            },
            UniformValue::Vec4(x, y, z, w) => {
                push_le(out, *x);
                push_le(out, *y);
                push_le(out, *z);
                push_le(out, *w);
            },
        }
    }
}

/// Appends the four bytes of `x`, least significant first.
fn push_le(out: &mut Vec<u8>, x: u32)
    ensures
        final(out)@ == old(out)@ + le_bytes(x),
{
    out.push((x % 0x100) as u8);
    out.push((x / 0x100 % 0x100) as u8);
    out.push((x / 0x1_0000 % 0x100) as u8);
    out.push((x / 0x100_0000) as u8);
}

/// Appends zero bytes to `out` until its length is a multiple of
/// `alignment`.
fn pad(out: &mut Vec<u8>, alignment: usize)
    requires
        alignment > 0,
    ensures
        final(out)@ == padded(old(out)@, alignment as int),
{
    let remainder: usize = out.len() % alignment;
    let count: usize = if remainder == 0 {
        0
    } else {
        alignment - remainder
    };
    let ghost start = out@;
    let mut written: usize = 0;
    while written < count
        invariant
            written <= count,
            out@ == start + zeros(written as int),
        decreases count - written,
    {
        out.push(0u8);
        written += 1;
    }
}

/// The first multiple of `alignment` at or after `offset`, `None` where
/// that does not fit in `usize`.
pub fn round_up(offset: usize, alignment: usize) -> (result: Option<usize>)
    requires
        alignment > 0,
    ensures
        match result {
            Some(aligned) => aligned == rounded_up(offset as int, alignment as int),
            None => rounded_up(offset as int, alignment as int) > usize::MAX,
        },
{
    let remainder: usize = offset % alignment;
    if remainder == 0 {
        Some(offset)
    } else {
        offset.checked_add(alignment - remainder)
    }
}

/// Rounding up to a field's or a record's alignment gives the first
/// multiple of it that is not below the offset.
pub proof fn lemma_rounded_up(offset: int, alignment: int)
    requires
        0 <= offset,
        alignment == 4 || alignment == 8 || alignment == 16,
    ensures
        rounded_up(offset, alignment) % alignment == 0,
        offset <= rounded_up(offset, alignment) < offset + alignment,
        offset % alignment == 0 ==> rounded_up(offset, alignment) == offset,
{
}

/// The fields occupy more bytes the more of them are counted, and the
/// record holds them all.
pub proof fn lemma_extent_grows(kinds: Seq<FieldKind>, fewer: int, more: int)
    requires
        0 <= fewer <= more,
    ensures
        0 <= extent(kinds, fewer) <= extent(kinds, more),
        extent(kinds, more) <= rounded_up(extent(kinds, more), RECORD_ALIGNMENT as int),
    decreases more,
{
    if more > 0 {
        lemma_extent_grows(kinds, 0, more - 1);
        lemma_rounded_up(extent(kinds, more - 1), alignment_of(kinds[more - 1]));
        if fewer < more {
            lemma_extent_grows(kinds, fewer, more - 1);
        }
    }
    lemma_rounded_up(extent(kinds, more), RECORD_ALIGNMENT as int);
}

/// The size of the record with these fields.
///
/// Fails with `EmptyRecord` for the empty list and with `TooLarge` where
/// the size does not fit in `usize`.
pub fn measure(kinds: &Vec<FieldKind>) -> (result: Result<usize, LayoutError>)
    ensures
        match result {
            Ok(size) => kinds@.len() > 0 && size == record_size(kinds@),
            Err(LayoutError::EmptyRecord) => kinds@.len() == 0,
            Err(LayoutError::TooLarge) => kinds@.len() > 0 && record_size(kinds@) > usize::MAX,
        },
{
    if kinds.len() == 0 {
        return Err(LayoutError::EmptyRecord);
    }
    let mut end: usize = 0;
    let mut index: usize = 0;
    while index < kinds.len()
        invariant
            index <= kinds.len(),
            end == extent(kinds@, index as int),
        decreases kinds.len() - index,
    {
        let kind = kinds[index];
        proof {
            lemma_extent_grows(kinds@, index + 1, kinds@.len() as int);
        }
        let start: usize = match round_up(end, kind.alignment()) {
            Some(start) => start,
            None => {
                return Err(LayoutError::TooLarge);
            },
        };
        end = match start.checked_add(kind.size()) {
            Some(end) => end,
            None => {
                return Err(LayoutError::TooLarge);
            },
        };
        index += 1;
    }
    match round_up(end, RECORD_ALIGNMENT) {
        Some(size) => Ok(size),
        None => Err(LayoutError::TooLarge),
    }
}

/// The record that holds `values`, as bytes.
///
/// Fails with `EmptyRecord` for the empty list and with `TooLarge` where
/// the record's size does not fit in `usize`.
pub fn serialize(values: &Vec<UniformValue>) -> (result: Result<Vec<u8>, LayoutError>)
    ensures
        match result {
            Ok(bytes) => {
                &&& values@.len() > 0
                &&& bytes@ == encode(values@)
                &&& bytes@.len() == record_size(kinds_of(values@))
            },
            Err(LayoutError::EmptyRecord) => values@.len() == 0,
            Err(LayoutError::TooLarge) => {
                &&& values@.len() > 0
                &&& record_size(kinds_of(values@)) > usize::MAX
            },
        },
{
    let mut kinds: Vec<FieldKind> = Vec::new();
    let mut index: usize = 0;
    while index < values.len()
        invariant
            index <= values.len(),
            kinds@ == kinds_of(values@).take(index as int),
        decreases values.len() - index,
    {
        kinds.push(values[index].field_kind());
        index += 1;
    }
    assert(kinds@ == kinds_of(values@));
    match measure(&kinds) {
        Err(error) => {
            return Err(error);
        },
        Ok(_) => {},
    }
    let mut bytes: Vec<u8> = Vec::new();
    let mut index: usize = 0;
    while index < values.len()
        invariant
            index <= values.len(),
            bytes@ == encode_fields(values@, index as int),
        decreases values.len() - index,
    {
        pad(&mut bytes, values[index].field_kind().alignment());
        values[index].write(&mut bytes);
        index += 1;
    }
    pad(&mut bytes, RECORD_ALIGNMENT);
    proof {
        lemma_encoded_length(values@, values@.len() as int);
    }
    Ok(bytes)
}

/// The bytes of the first `count` fields are as many as the fields occupy.
pub proof fn lemma_encoded_length(values: Seq<UniformValue>, count: int)
    requires
        0 <= count <= values.len(),
    ensures
        encode_fields(values, count).len() == extent(kinds_of(values), count),
        count == values.len() ==> encode(values).len() == record_size(kinds_of(values)),
    decreases count,
{
    if count > 0 {
        lemma_encoded_length(values, count - 1);
    }
}

/// Every field starts at a multiple of its alignment, at or after the end
/// of the field before it and less than one alignment after it, and the
/// record's size is a multiple of sixteen that holds every field.
pub proof fn lemma_field_placement(kinds: Seq<FieldKind>, index: int)
    requires
        0 <= index < kinds.len(),
    ensures
        field_offset(kinds, index) % alignment_of(kinds[index]) == 0,
        extent(kinds, index) <= field_offset(kinds, index) < extent(kinds, index) + alignment_of(
            kinds[index],
        ),
        field_offset(kinds, index) + size_of(kinds[index]) == extent(kinds, index + 1),
        extent(kinds, index + 1) <= record_size(kinds),
        record_size(kinds) % (RECORD_ALIGNMENT as int) == 0,
        record_size(kinds) < extent(kinds, kinds.len() as int) + RECORD_ALIGNMENT,
{
    lemma_extent_grows(kinds, 0, index);
    lemma_rounded_up(extent(kinds, index), alignment_of(kinds[index]));
    lemma_extent_grows(kinds, index + 1, kinds.len() as int);
    lemma_rounded_up(extent(kinds, kinds.len() as int), RECORD_ALIGNMENT as int);
}

/// The bytes of the first fields stay where they are when more fields
/// follow.
pub proof fn lemma_encoded_prefix(values: Seq<UniformValue>, fewer: int, more: int)
    requires
        0 <= fewer <= more <= values.len(),
    ensures
        encode_fields(values, fewer).len() <= encode_fields(values, more).len(),
        encode_fields(values, more).take(encode_fields(values, fewer).len() as int)
            == encode_fields(values, fewer),
    decreases more - fewer,
{
    let shorter = encode_fields(values, fewer);
    if fewer < more {
        lemma_encoded_prefix(values, fewer, more - 1);
        let before = encode_fields(values, more - 1);
        let longer = encode_fields(values, more);
        assert(longer.take(before.len() as int) == before);
        assert(longer.take(shorter.len() as int) == before.take(shorter.len() as int));
    } else {
        assert(shorter.take(shorter.len() as int) == shorter);
    }
}

/// The record starts with the bytes of its first fields.
pub proof fn lemma_encoded_record_prefix(values: Seq<UniformValue>, count: int)
    requires
        0 <= count <= values.len(),
    ensures
        encode_fields(values, count).len() <= encode(values).len(),
        encode(values).take(encode_fields(values, count).len() as int) == encode_fields(
            values,
            count,
        ),
{
    lemma_encoded_prefix(values, count, values.len() as int);
    let whole = encode_fields(values, values.len() as int);
    let shorter = encode_fields(values, count);
    assert(encode(values).take(whole.len() as int) == whole);
    assert(encode(values).take(shorter.len() as int) == whole.take(shorter.len() as int));
}

/// The record holds each field's bytes at the field's offset.
pub proof fn lemma_field_bytes(values: Seq<UniformValue>, index: int)
    requires
        0 <= index < values.len(),
    ensures
        0 <= field_offset(kinds_of(values), index),
        field_offset(kinds_of(values), index) + size_of(values[index].kind()) <= encode(
            values,
        ).len(),
        encode(values).subrange(
            field_offset(kinds_of(values), index),
            field_offset(kinds_of(values), index) + size_of(values[index].kind()),
        ) == values[index].bytes(),
{
    let kinds = kinds_of(values);
    let start = field_offset(kinds, index);
    let size = size_of(values[index].kind());
    lemma_field_placement(kinds, index);
    lemma_extent_grows(kinds, 0, index);
    lemma_encoded_length(values, index);
    lemma_encoded_length(values, index + 1);
    lemma_encoded_record_prefix(values, index + 1);
    let through = encode_fields(values, index + 1);
    assert(through.subrange(start, start + size) == values[index].bytes());
    assert(encode(values).subrange(start, start + size) == encode(values).take(
        through.len() as int,
    ).subrange(start, start + size));
}

/// The bytes skipped before a field, and those that follow the last field,
/// are zero.
pub proof fn lemma_padding_bytes(values: Seq<UniformValue>, index: int, position: int)
    requires
        0 <= index <= values.len(),
        extent(kinds_of(values), index) <= position,
        index < values.len() ==> position < field_offset(kinds_of(values), index),
        index == values.len() ==> position < record_size(kinds_of(values)),
    ensures
        0 <= position < encode(values).len(),
        encode(values)[position] == 0,
{
    let kinds = kinds_of(values);
    let all = values.len() as int;
    lemma_extent_grows(kinds, 0, index);
    lemma_encoded_length(values, index);
    lemma_encoded_length(values, all);
    if index < all {
        lemma_field_placement(kinds, index);
        lemma_encoded_length(values, index + 1);
        lemma_encoded_record_prefix(values, index + 1);
        let through = encode_fields(values, index + 1);
        assert(through[position] == 0);
        assert(encode(values).take(through.len() as int)[position] == encode(values)[position]);
    } else {
    }
}

/// A type whose values are written to a uniform buffer as one record.
///
/// The layout is fixed for the type: every value has fields of the same
/// kinds in the same order, so every value takes the same number of
/// bytes.
pub trait ShaderType: Copy {
    /// The kinds of the record's fields, in declared order.
    spec fn layout() -> Seq<FieldKind>;

    /// The record's fields as the value has them.
    spec fn record(&self) -> Seq<UniformValue>;

    /// Every value of the type has the type's layout, and the layout is
    /// that of a record whose size fits in memory.
    proof fn lemma_record(&self)
        ensures
            kinds_of(self.record()) == Self::layout(),
            Self::layout().len() > 0,
            record_size(Self::layout()) <= usize::MAX,
    ;

    /// The size in bytes of one record.
    fn uniform_size() -> (size: usize)
        ensures
            size == record_size(Self::layout()),
            size > 0,
    ;

    /// The record's fields as the value has them.
    fn uniform_record(&self) -> (values: Vec<UniformValue>)
        ensures
            values@ == self.record(),
    ;
}

/// The value's record as uniform bytes. Succeeds for every value, and the
/// bytes are as many as a record of the type takes.
pub fn write_uniform<S: ShaderType>(value: &S) -> (result: Result<Vec<u8>, LayoutError>)
    ensures
        result matches Ok(bytes) && bytes@ == encode(value.record()) && bytes@.len()
            == record_size(S::layout()),
{
    proof {
        value.lemma_record();
    }
    serialize(&value.uniform_record())
}

/// Whatever a value holds, its bytes are as many as the type's record
/// takes: two values of one type never differ in length.
pub proof fn lemma_fixed_size<S: ShaderType>(one: S, other: S)
    ensures
        encode(one.record()).len() == record_size(S::layout()),
        encode(one.record()).len() == encode(other.record()).len(),
{
    one.lemma_record();
    other.lemma_record();
    lemma_encoded_length(one.record(), one.record().len() as int);
    lemma_encoded_length(other.record(), other.record().len() as int);
}

} // verus!
