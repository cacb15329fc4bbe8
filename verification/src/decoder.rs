use vstd::prelude::*;

verus! {

// ---------------------------------------------------------------------------
// The wire form.  A message is a flat sequence of attributes; each attribute
// is a four-byte big-endian header word followed by a payload.  The header
// word packs, from the top bit down: an extension flag, a seven-bit type
// discriminant, and a twenty-four-bit total length that includes the header
// itself.  Attributes are aligned to four bytes within their enclosing
// buffer.
// ---------------------------------------------------------------------------
/// The big-endian value of two bytes of `b` starting at `off`.
pub open spec fn be16(b: Seq<u8>, off: int) -> int {
    (b[off] as int) * 0x100 + (b[off + 1] as int)
}

/// The big-endian value of four bytes of `b` starting at `off`.
pub open spec fn be32(b: Seq<u8>, off: int) -> int {
    (b[off] as int) * 0x1000000 + (b[off + 1] as int) * 0x10000 + (b[off + 2] as int) * 0x100 + (b[
        off + 3] as int)
}

/// The big-endian value of eight bytes of `b` starting at `off`.
pub open spec fn be64(b: Seq<u8>, off: int) -> int {
    be32(b, off) * 0x100000000 + be32(b, off + 4)
}

/// The total length (header included) declared by the header word `w`.
pub open spec fn tag_size(w: int) -> int {
    w % 0x1000000
}

/// The type discriminant of the header word `w`.
pub open spec fn tag_id(w: int) -> int {
    (w / 0x1000000) % 0x80
}

/// The extension flag of the header word `w`.
pub open spec fn tag_extended(w: int) -> bool {
    w >= 0x80000000
}

/// Padding bytes that follow an attribute of total length `n`.
pub open spec fn pad4(n: int) -> int {
    (4 - n % 4) % 4
}

/// `n` rounded up to the enclosing buffer's four-byte alignment.
pub open spec fn align4(n: int) -> int {
    n + pad4(n)
}

/// The attributes decoded from `b` starting at byte `off`: the sequence of
/// (type discriminant, extension flag, payload) triples, in buffer order.
/// Decoding stops, yielding no further items, at the first header that is
/// truncated, declares a length smaller than the header, or declares a
/// length past the end of the buffer; it never reads past `b`.
#[verifier::opaque]
pub open spec fn decode_seq(b: Seq<u8>, off: int) -> Seq<(int, bool, Seq<u8>)>
    decreases b.len() - off
    when 0 <= off <= b.len()
{
    if off + 4 > b.len() {
        Seq::empty()
    } else {
        let w: int = be32(b, off);
        let size: int = tag_size(w);
        if size < 4 || off + size > b.len() {
            Seq::empty()
        } else {
            let nxt: int = if off + align4(size) > b.len() {
                b.len() as int
            } else {
                off + align4(size)
            };
            seq![(tag_id(w), tag_extended(w), b.subrange(off + 4, off + size))] + decode_seq(b, nxt)
        }
    }
}

/// A decoded attribute header.
#[derive(Debug)]
pub struct BlobTag {
    pub id: u32,
    pub size: u32,
    pub extended: bool,
}

/// One decoded attribute: its header and a copy of its payload.
#[derive(Debug)]
pub struct Blob {
    pub tag: BlobTag,
    pub data: Vec<u8>,
}

/// The (type discriminant, extension flag, payload) triple a `Blob` stands
/// for.
pub open spec fn blob_model(b: Blob) -> (int, bool, Seq<u8>) {
    (b.tag.id as int, b.tag.extended, b.data@)
}

/// Reads two bytes big-endian.
pub fn read_be16(v: &Vec<u8>, off: usize) -> (r: u16)
    requires
        off + 2 <= v.len(),
    ensures
        r as int == be16(v@, off as int),
{
    (v[off] as u16) * 0x100 + (v[off + 1] as u16)
}

/// Reads four bytes big-endian.
pub fn read_be32(v: &Vec<u8>, off: usize) -> (r: u32)
    requires
        off + 4 <= v.len(),
    ensures
        r as int == be32(v@, off as int),
{
    (v[off] as u32) * 0x1000000 + (v[off + 1] as u32) * 0x10000 + (v[off + 2] as u32) * 0x100 + (v[
        off + 3] as u32)
}

/// Reads eight bytes big-endian.
pub fn read_be64(v: &Vec<u8>, off: usize) -> (r: u64)
    requires
        off + 8 <= v.len(),
    ensures
        r as int == be64(v@, off as int),
{
    (read_be32(v, off) as u64) * 0x100000000 + (read_be32(v, off + 4) as u64)
}

/// A fresh copy of `v[start..end]`.
pub fn copy_range(v: &Vec<u8>, start: usize, end: usize) -> (r: Vec<u8>)
    requires
        start <= end <= v@.len(),
    ensures
        r@ == v@.subrange(start as int, end as int),
{
    let mut r: Vec<u8> = Vec::new();
    let mut i: usize = start;
    while i < end
        invariant
            start <= i <= end <= v@.len(),
            r@ =~= v@.subrange(start as int, i as int),
        decreases end - i,
    {
        r.push(v[i]);
        i = i + 1;
    }
    proof {
        assert(r@ =~= v@.subrange(start as int, end as int));
    }
    r
}

/// A lazy, finite, single-pass walk over the sibling attributes of one
/// buffer.  Each successful step yields one attribute; the first header that
/// fails validation ends the walk for good.
pub struct BlobIter {
    data: Vec<u8>,
    offset: usize,
}

impl BlobIter {
    /// The enclosing buffer.
    pub closed spec fn data_seq(self) -> Seq<u8> {
        self.data@
    }

    /// The current position.
    pub closed spec fn spec_offset(self) -> int {
        self.offset as int
    }

    pub open spec fn wf(self) -> bool {
        0 <= self.spec_offset() <= self.data_seq().len()
    }

    /// The attributes this walk will still yield.
    pub open spec fn remaining(self) -> Seq<(int, bool, Seq<u8>)> {
        decode_seq(self.data_seq(), self.spec_offset())
    }

    pub fn new(data: Vec<u8>) -> (r: Self)
        ensures
            r.wf(),
            r.data_seq() == data@,
            r.spec_offset() == 0,
    {
        BlobIter { data, offset: 0 }
    }

    /// How many bytes of the buffer the walk has consumed so far; callers
    /// that need strict validation hold this against the declared total
    /// length themselves.
    pub fn consumed(&self) -> (r: usize)
        ensures
            r as int == self.spec_offset(),
    {
        self.offset
    }

    /// One decoding step: the next attribute, or nothing once the walk has
    /// ended.  Validation failure is not an error; the walk just ends.
    pub fn next(&mut self) -> (r: Option<Blob>)
        requires
            old(self).wf(),
        ensures
            final(self).wf(),
            final(self).data_seq() == old(self).data_seq(),
            match r {
                Some(blob) => old(self).remaining().len() > 0 && blob_model(blob) == old(
                    self,
                ).remaining()[0] && blob.tag.size as int == blob.data@.len() + 4
                    && final(self).remaining() == old(self).remaining().drop_first()
                    && final(self).spec_offset() > old(self).spec_offset(),
                None => old(self).remaining().len() == 0 && final(self).remaining().len() == 0,
            },
    {
        proof {
            reveal_with_fuel(decode_seq, 2);
        }
        let len = self.data.len();
        let rem = len - self.offset;
        if rem < 4 {
            self.offset = len;
            return None;
        }
        let w = read_be32(&self.data, self.offset);
        let size_u = w % 0x1000000;
        let size = size_u as usize;
        if size < 4 || size > rem {
            self.offset = len;
            return None;
        }
        let id = (w / 0x1000000) % 0x80;
        let extended = w >= 0x80000000;
        let payload = copy_range(&self.data, self.offset + 4, self.offset + size);
        let pad = (4 - size % 4) % 4;
        let aligned = size + pad;
        let start = self.offset;
        if aligned > rem {
            self.offset = len;
        } else {
            self.offset = start + aligned;
        }
        let blob = Blob { tag: BlobTag { id, size: size_u, extended }, data: payload };
        proof {
            let b = old(self).data_seq();
            let off = start as int;
            let wal: int = be32(b, off);
            assert(tag_size(wal) == size as int);
            assert(tag_id(wal) == id as int);
            assert(tag_extended(wal) == extended);
            assert(pad4(size as int) == pad as int);
            let first = (tag_id(wal), tag_extended(wal), b.subrange(off + 4, off + size as int));
            assert(old(self).remaining() == seq![first] + decode_seq(b, self.offset as int));
            assert(blob_model(blob) == first);
            assert((seq![first] + decode_seq(b, self.offset as int)).drop_first() =~= decode_seq(
                b,
                self.offset as int,
            ));
        }
        Some(blob)
    }
}

/// The decoder run over one raw attribute: the walk covers the attribute's
/// declared payload region.  A raw attribute whose own header fails
/// validation yields an empty walk.
pub fn parse_attr_payload(msg: &Vec<u8>) -> (r: BlobIter)
    ensures
        r.wf(),
        r.spec_offset() == 0,
        (msg@.len() >= 4 && 4 <= tag_size(be32(msg@, 0)) <= msg@.len()) ==> r.data_seq() == msg@
            .subrange(4, tag_size(be32(msg@, 0))),
        !(msg@.len() >= 4 && 4 <= tag_size(be32(msg@, 0)) <= msg@.len()) ==> r.data_seq().len()
            == 0,
{
    if msg.len() < 4 {
        return BlobIter::new(Vec::new());
    }
    let w = read_be32(msg, 0);
    let size_u = w % 0x1000000;
    let size = size_u as usize;
    if size < 4 || size > msg.len() {
        return BlobIter::new(Vec::new());
    }
    BlobIter::new(copy_range(msg, 4, size))
}

// ---------------------------------------------------------------------------
// The typed step: interpreting one attribute's payload by its declared type
// tag.  Extended attributes open with a two-byte big-endian name length, the
// name, a nul terminator and alignment padding; the rest is the typed value.
// ---------------------------------------------------------------------------
/// The typed reading of an attribute payload, at the specification level.
/// Nested attribute sequences (arrays and tables) keep their raw bytes: they
/// are decoded lazily by a further walk.  A floating-point payload is kept as
/// its raw bit pattern.
pub enum MsgDataModel {
    Array(Seq<u8>),
    Table(Seq<u8>),
    Str(Seq<u8>),
    Int64(i64),
    Int32(i32),
    Int16(i16),
    Int8(i8),
    DoubleBits(u64),
    Unknown(int, Seq<u8>),
}

/// The typed reading of the attribute `(id, extended, payload)`, or nothing
/// if the attribute is not extended, its name header is malformed, or the
/// payload is shorter than the declared type requires.
#[verifier::opaque]
pub open spec fn convert_attr(id: int, extended: bool, payload: Seq<u8>) -> Option<
    (Seq<u8>, MsgDataModel),
> {
    if !extended {
        None
    } else if payload.len() < 2 {
        None
    } else {
        let name_len: int = be16(payload, 0);
        if name_len + 3 > payload.len() {
            None
        } else if payload[2 + name_len] != 0 {
            None
        } else {
            let rest_start: int = align4(name_len + 3);
            if rest_start > payload.len() {
                None
            } else {
                let name: Seq<u8> = payload.subrange(2, 2 + name_len);
                let rest: Seq<u8> = payload.subrange(rest_start, payload.len() as int);
                if id == 1 {
                    Some((name, MsgDataModel::Array(rest)))
                } else if id == 2 {
                    Some((name, MsgDataModel::Table(rest)))
                } else if id == 3 {
                    if rest.len() > 0 && rest.last() == 0 {
                        Some((name, MsgDataModel::Str(rest.drop_last())))
                    } else {
                        Some((name, MsgDataModel::Str(rest)))
                    }
                } else if id == 4 {
                    if rest.len() < 8 {
                        None
                    } else {
                        Some((name, MsgDataModel::Int64(be64(rest, 0) as u64 as i64)))
                    }
                } else if id == 5 {
                    if rest.len() < 4 {
                        None
                    } else {
                        Some((name, MsgDataModel::Int32(be32(rest, 0) as u32 as i32)))
                    }
                } else if id == 6 {
                    if rest.len() < 2 {
                        None
                    } else {
                        Some((name, MsgDataModel::Int16(be16(rest, 0) as u16 as i16)))
                    }
                } else if id == 7 {
                    if rest.len() < 1 {
                        None
                    } else {
                        Some((name, MsgDataModel::Int8(rest[0] as i8)))
                    }
                } else if id == 8 {
                    if rest.len() < 8 {
                        None
                    } else {
                        Some((name, MsgDataModel::DoubleBits(be64(rest, 0) as u64)))
                    }
                } else {
                    Some((name, MsgDataModel::Unknown(id, rest)))
                }
            }
        }
    }
}

/// The typed reading of an attribute payload, as executable data.
#[derive(Debug)]
pub enum BlobMsgData {
    Array(Vec<u8>),
    Table(Vec<u8>),
    Str(Vec<u8>),
    Int64(i64),
    Int32(i32),
    Int16(i16),
    Int8(i8),
    DoubleBits(u64),
    Unknown(u32, Vec<u8>),
}

/// One successfully typed attribute: its name and its typed payload.  Names
/// and string payloads stay byte strings here; text decoding is the
/// caller's business.
#[derive(Debug)]
pub struct BlobMsg {
    pub name: Vec<u8>,
    pub data: BlobMsgData,
}

pub open spec fn data_model(d: BlobMsgData) -> MsgDataModel {
    match d {
        BlobMsgData::Array(v) => MsgDataModel::Array(v@),
        BlobMsgData::Table(v) => MsgDataModel::Table(v@),
        BlobMsgData::Str(v) => MsgDataModel::Str(v@),
        BlobMsgData::Int64(x) => MsgDataModel::Int64(x),
        BlobMsgData::Int32(x) => MsgDataModel::Int32(x),
        BlobMsgData::Int16(x) => MsgDataModel::Int16(x),
        BlobMsgData::Int8(x) => MsgDataModel::Int8(x),
        BlobMsgData::DoubleBits(x) => MsgDataModel::DoubleBits(x),
        BlobMsgData::Unknown(id, v) => MsgDataModel::Unknown(id as int, v@),
    }
}

pub open spec fn msg_model(m: BlobMsg) -> (Seq<u8>, MsgDataModel) {
    (m.name@, data_model(m.data))
}

/// The typed conversion of one decoded attribute.  Fails with the
/// type-mismatch outcome exactly when the specification-level conversion has
/// no reading for it.
pub fn blob_to_msg(blob: &Blob) -> (r: Result<BlobMsg, crate::UbusError>)
    ensures
        match r {
            Ok(m) => convert_attr(blob.tag.id as int, blob.tag.extended, blob.data@) == Some(
                msg_model(m),
            ),
            Err(e) => e == crate::UbusError::TypeMismatch && convert_attr(
                blob.tag.id as int,
                blob.tag.extended,
                blob.data@,
            ) is None,
        },
{
    proof {
        reveal(convert_attr);
    }
    if !blob.tag.extended {
        return Err(crate::UbusError::TypeMismatch);
    }
    let p = &blob.data;
    let len = p.len();
    if len < 2 {
        return Err(crate::UbusError::TypeMismatch);
    }
    let name_len = read_be16(p, 0) as usize;
    if name_len + 3 > len {
        return Err(crate::UbusError::TypeMismatch);
    }
    if p[2 + name_len] != 0 {
        return Err(crate::UbusError::TypeMismatch);
    }
    let total = name_len + 3;
    let pad = (4 - total % 4) % 4;
    let rest_start = total + pad;
    if rest_start > len {
        return Err(crate::UbusError::TypeMismatch);
    }
    let name = copy_range(p, 2, 2 + name_len);
    let id = blob.tag.id;
    if id == 1 {
        Ok(BlobMsg { name, data: BlobMsgData::Array(copy_range(p, rest_start, len)) })
    } else if id == 2 {
        Ok(BlobMsg { name, data: BlobMsgData::Table(copy_range(p, rest_start, len)) })
    } else if id == 3 {
        let end = if len > rest_start && p[len - 1] == 0 {
            len - 1
        } else {
            len
        };
        let s = copy_range(p, rest_start, end);
        proof {
            let rest = p@.subrange(rest_start as int, len as int);
            if rest.len() > 0 && rest.last() == 0 {
                assert(s@ =~= rest.drop_last());
            } else {
                assert(s@ =~= rest);
            }
        }
        Ok(BlobMsg { name, data: BlobMsgData::Str(s) })
    } else if id == 4 {
        if len - rest_start < 8 {
            return Err(crate::UbusError::TypeMismatch);
        }
        let bits = read_be64(p, rest_start);
        proof {
            let rest = p@.subrange(rest_start as int, len as int);
            assert(be64(rest, 0) == be64(p@, rest_start as int));
        }
        Ok(BlobMsg { name, data: BlobMsgData::Int64(bits as i64) })
    } else if id == 5 {
        if len - rest_start < 4 {
            return Err(crate::UbusError::TypeMismatch);
        }
        let bits = read_be32(p, rest_start);
        proof {
            let rest = p@.subrange(rest_start as int, len as int);
            assert(be32(rest, 0) == be32(p@, rest_start as int));
        }
        Ok(BlobMsg { name, data: BlobMsgData::Int32(bits as i32) })
    } else if id == 6 {
        if len - rest_start < 2 {
            return Err(crate::UbusError::TypeMismatch);
        }
        let bits = read_be16(p, rest_start);
        proof {
            let rest = p@.subrange(rest_start as int, len as int);
            assert(be16(rest, 0) == be16(p@, rest_start as int));
        }
        Ok(BlobMsg { name, data: BlobMsgData::Int16(bits as i16) })
    } else if id == 7 {
        if len - rest_start < 1 {
            return Err(crate::UbusError::TypeMismatch);
        }
        let b0 = p[rest_start];
        Ok(BlobMsg { name, data: BlobMsgData::Int8(b0 as i8) })
    } else if id == 8 {
        if len - rest_start < 8 {
            return Err(crate::UbusError::TypeMismatch);
        }
        let bits = read_be64(p, rest_start);
        proof {
            let rest = p@.subrange(rest_start as int, len as int);
            assert(be64(rest, 0) == be64(p@, rest_start as int));
        }
        Ok(BlobMsg { name, data: BlobMsgData::DoubleBits(bits) })
    } else {
        Ok(BlobMsg { name, data: BlobMsgData::Unknown(id, copy_range(p, rest_start, len)) })
    }
}

/// The typed readings of the longest prefix of `attrs` whose members all
/// convert; the first attribute with no typed reading ends the sequence
/// silently.
#[verifier::opaque]
pub open spec fn typed_prefix(attrs: Seq<(int, bool, Seq<u8>)>) -> Seq<(Seq<u8>, MsgDataModel)>
    decreases attrs.len(),
{
    if attrs.len() == 0 {
        Seq::empty()
    } else {
        match convert_attr(attrs[0].0, attrs[0].1, attrs[0].2) {
            Some(m) => seq![m] + typed_prefix(attrs.drop_first()),
            None => Seq::empty(),
        }
    }
}

/// Unfolding step: a convertible head contributes its typed reading.
proof fn lemma_typed_prefix_step_some(attrs: Seq<(int, bool, Seq<u8>)>, m: (Seq<u8>, MsgDataModel))
    requires
        attrs.len() > 0,
        convert_attr(attrs[0].0, attrs[0].1, attrs[0].2) == Some(m),
    ensures
        typed_prefix(attrs) == seq![m] + typed_prefix(attrs.drop_first()),
{
    reveal_with_fuel(typed_prefix, 1);
}

/// Unfolding step: an inconvertible head ends the typed sequence.
proof fn lemma_typed_prefix_step_none(attrs: Seq<(int, bool, Seq<u8>)>)
    requires
        attrs.len() > 0,
        convert_attr(attrs[0].0, attrs[0].1, attrs[0].2) is None,
    ensures
        typed_prefix(attrs) == Seq::<(Seq<u8>, MsgDataModel)>::empty(),
{
    reveal_with_fuel(typed_prefix, 1);
}

/// Unfolding step: no attributes, no typed readings.
proof fn lemma_typed_prefix_empty(attrs: Seq<(int, bool, Seq<u8>)>)
    requires
        attrs.len() == 0,
    ensures
        typed_prefix(attrs) == Seq::<(Seq<u8>, MsgDataModel)>::empty(),
{
    reveal_with_fuel(typed_prefix, 1);
}

/// Decodes one raw attribute's payload and types each sibling in turn,
/// stopping silently at the first sibling that fails to convert.
#[verifier::rlimit(100)]
pub fn parse_typed_prefix(msg: &Vec<u8>) -> (r: Vec<BlobMsg>)
    ensures
        r@.map_values(|m: BlobMsg| msg_model(m)) == typed_prefix(parse_payload_attrs(msg@)),
{
    let mut iter = parse_attr_payload(msg);
    let ghost all = iter.remaining();
    let mut out: Vec<BlobMsg> = Vec::new();
    let ghost mut models: Seq<(Seq<u8>, MsgDataModel)> = Seq::empty();
    proof {
        reveal_with_fuel(decode_seq, 1);
        assert(parse_payload_attrs(msg@) == all);
        assert(models + typed_prefix(all) =~= typed_prefix(all));
    }
    loop
        invariant
            iter.wf(),
            parse_payload_attrs(msg@) == all,
            models.len() == out@.len(),
            forall|i: int| 0 <= i < models.len() ==> models[i] == msg_model(out@[i]),
            typed_prefix(all) == models + typed_prefix(iter.remaining()),
        decreases iter.data_seq().len() - iter.spec_offset(),
    {
        let ghost before = iter.remaining();
        match iter.next() {
            None => {
                proof {
                    assert(before.len() == 0);
                    lemma_typed_prefix_empty(before);
                    assert(models + typed_prefix(before) =~= models);
                    assert(out@.map_values(|m: BlobMsg| msg_model(m)) =~= models);
                }
                return out;
            },
            Some(blob) => {
                let converted = blob_to_msg(&blob);
                match converted {
                    Ok(m) => {
                        proof {
                            assert(before.len() > 0);
                            assert(before[0] == blob_model(blob));
                            assert(convert_attr(before[0].0, before[0].1, before[0].2) == Some(
                                msg_model(m),
                            ));
                            lemma_typed_prefix_step_some(before, msg_model(m));
                            assert(models + typed_prefix(before) =~= models.push(msg_model(m))
                                + typed_prefix(before.drop_first()));
                            models = models.push(msg_model(m));
                        }
                        out.push(m);
                    },
                    Err(_) => {
                        proof {
                            assert(before[0] == blob_model(blob));
                            assert(convert_attr(before[0].0, before[0].1, before[0].2) is None);
                            lemma_typed_prefix_step_none(before);
                            assert(models + typed_prefix(before) =~= models);
                            assert(out@.map_values(|m: BlobMsg| msg_model(m)) =~= models);
                        }
                        return out;
                    },
                }
            },
        }
    }
}

/// The attribute triples of one raw attribute's declared payload region, or
/// an empty sequence if the raw attribute's own header fails validation.
pub open spec fn parse_payload_attrs(msg: Seq<u8>) -> Seq<(int, bool, Seq<u8>)> {
    if msg.len() >= 4 && 4 <= tag_size(be32(msg, 0)) <= msg.len() {
        decode_seq(msg.subrange(4, tag_size(be32(msg, 0))), 0)
    } else {
        Seq::empty()
    }
}

} // verus!
