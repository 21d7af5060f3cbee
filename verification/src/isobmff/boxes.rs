use vstd::prelude::*;
use super::types::{
    box_views, BoxHeader, BoxModel, FourCc, MetaBox, ParsedBox, BASIC_HEADER_SIZE, LARGE_SIZE_FIELD_SIZE,
    UUID_BOX_TYPE, UUID_EXTENDED_TYPE_SIZE,
};
use super::errors::ParseBoxError;
use super::bytes::{be32, be64, fourcc_at, read_u32_be, read_u64_be, u32_value_at};

verus! {

/// The sixteen bytes of `s` at `i` as an array.
pub open spec fn uuid_at(s: Seq<u8>, i: int) -> [u8; 16] {
    [
        s[i], s[i + 1], s[i + 2], s[i + 3], s[i + 4], s[i + 5], s[i + 6], s[i + 7],
        s[i + 8], s[i + 9], s[i + 10], s[i + 11], s[i + 12], s[i + 13], s[i + 14], s[i + 15],
    ]
}

/// The box header at the start of `input`, where the enclosing range ends with
/// `input`, and the number of header bytes; or the reason it cannot be read.
///
/// Size field 1 selects a 64-bit size after the type, size field 0 extends the box
/// to the end of the range, and type `uuid` adds a 16-byte extended type.
pub open spec fn spec_header(input: Seq<u8>, offset: u64) -> Result<(BoxHeader, int), ParseBoxError> {
    let len = input.len();
    if len < 8 {
        Err(ParseBoxError::TruncatedHeader { offset, available: len as usize })
    } else {
        let size32 = be32(input, 0);
        let box_type = fourcc_at(input, 4);
        let large = size32 == 1;
        if large && len < 16 {
            Err(ParseBoxError::TruncatedLargeSize { offset, available: len as usize })
        } else {
            let box_size: u64 = if large {
                be64(input, 8)
            } else if size32 == 0 {
                len as u64
            } else {
                size32 as u64
            };
            let base_header: int = if large { 16 } else { 8 };
            let is_uuid = box_type.0 == UUID_BOX_TYPE;
            if is_uuid && len < base_header + 16 {
                Err(ParseBoxError::TruncatedUuid { offset, available: len as usize })
            } else {
                let header_size: int = if is_uuid { base_header + 16 } else { base_header };
                let uuid = if is_uuid { Some(uuid_at(input, base_header)) } else { None };
                if box_size < header_size {
                    Err(ParseBoxError::InvalidBoxSize {
                        offset,
                        box_size,
                        header_size: header_size as u8,
                    })
                } else if box_size > len {
                    Err(ParseBoxError::BoxOutOfBounds { offset, box_size, available: len as u64 })
                } else {
                    Ok((BoxHeader { box_type, box_size, header_size: header_size as u8, uuid }, header_size))
                }
            }
        }
    }
}

/// The box at the start of `input` (placed at absolute `offset`) and its length.
pub open spec fn spec_next_box(input: Seq<u8>, offset: u64) -> Result<(BoxModel, int), ParseBoxError> {
    match spec_header(input, offset) {
        Err(e) => Err(e),
        Ok((header, header_size)) => Ok((
            BoxModel {
                header,
                payload: input.subrange(header_size, header.box_size as int),
                offset,
            },
            header.box_size as int,
        )),
    }
}

/// The boxes that tile `input` from position `cursor` to its end, where position
/// `p` lies at absolute offset `base + p`; or the first error met.
pub open spec fn spec_boxes_at(input: Seq<u8>, cursor: int, base: int) -> Result<Seq<BoxModel>, ParseBoxError>
    decreases input.len() - cursor,
{
    if cursor < 0 || cursor >= input.len() {
        Ok(Seq::empty())
    } else {
        match spec_next_box(input.subrange(cursor, input.len() as int), (base + cursor) as u64) {
            Err(e) => Err(e),
            Ok((b, n)) => if n > 0 {
                match spec_boxes_at(input, cursor + n, base) {
                    Err(e) => Err(e),
                    Ok(rest) => Ok(seq![b] + rest),
                }
            } else {
                Ok(seq![b])
            },
        }
    }
}

/// The boxes that tile all of `input`, the first at absolute offset `base`.
pub open spec fn spec_boxes(input: Seq<u8>, base: int) -> Result<Seq<BoxModel>, ParseBoxError> {
    spec_boxes_at(input, 0, base)
}

pub open spec fn boxes_view<'a>(r: Result<Vec<ParsedBox<'a>>, ParseBoxError>) -> Result<Seq<BoxModel>, ParseBoxError> {
    match r {
        Ok(v) => Ok(box_views(v@)),
        Err(e) => Err(e),
    }
}

pub proof fn lemma_next_box_len(input: Seq<u8>, offset: u64)
    requires
        spec_next_box(input, offset) is Ok,
    ensures
        ({
            let (b, n) = spec_next_box(input, offset)->Ok_0;
            &&& 8 <= b.header.header_size <= n <= input.len()
            &&& n == b.header.box_size
            &&& b.payload.len() == n - b.header.header_size
        }),
{
}

impl BoxHeader {
    pub fn payload_size(&self) -> (r: u64)
        requires
            self.box_size >= self.header_size,
        ensures
            r == self.box_size - self.header_size,
    {
        self.box_size - self.header_size as u64
    }
}

impl<'a> ParsedBox<'a> {
    /// Absolute offsets of this box stay within `u64`.
    pub open spec fn offsets_fit(&self) -> bool {
        self.offset + self.header.header_size + self.payload@.len() <= u64::MAX
    }

    pub open spec fn spec_payload_offset(&self) -> u64 {
        (self.offset + self.header.header_size) as u64
    }

    pub fn payload_offset(&self) -> (r: u64)
        requires
            self.offsets_fit(),
        ensures
            r == self.spec_payload_offset(),
    {
        self.offset + self.header.header_size as u64
    }

    /// Iterate immediate child boxes inside this box payload.
    pub fn children(&self) -> (r: BoxIter<'a>)
        requires
            self.offsets_fit(),
        ensures
            r@ == (BoxIterModel {
                input: self.payload@,
                cursor: 0,
                base_offset: self.spec_payload_offset(),
                finished: false,
            }),
    {
        BoxIter::with_offset(self.payload, self.payload_offset())
    }

    pub fn parse_children(&self) -> (r: Result<Vec<ParsedBox<'a>>, ParseBoxError>)
        requires
            self.offsets_fit(),
        ensures
            boxes_view(r) == spec_boxes(self.payload@, self.spec_payload_offset() as int),
        r matches Ok(v) ==> all_offsets_fit(v@),
    {
        collect_boxes(self.children())
    }
}

impl<'a> MetaBox<'a> {
    pub fn children(&self) -> (r: BoxIter<'a>)
        requires
            self.payload_offset + self.payload@.len() <= u64::MAX,
        ensures
            r@ == (BoxIterModel {
                input: self.payload@,
                cursor: 0,
                base_offset: self.payload_offset,
                finished: false,
            }),
    {
        BoxIter::with_offset(self.payload, self.payload_offset)
    }

    pub fn parse_children(&self) -> (r: Result<Vec<ParsedBox<'a>>, ParseBoxError>)
        requires
            self.payload_offset + self.payload@.len() <= u64::MAX,
        ensures
            boxes_view(r) == spec_boxes(self.payload@, self.payload_offset as int),
        r matches Ok(v) ==> all_offsets_fit(v@),
    {
        collect_boxes(self.children())
    }
}

/// Iterate BMFF boxes from an input slice.
pub struct BoxIter<'a> {
    input: &'a [u8],
    cursor: usize,
    base_offset: u64,
    finished: bool,
}

/// State of a box iterator: the range, the position reached, the absolute offset
/// of the range's start, and whether an error has ended the iteration.
pub struct BoxIterModel {
    pub input: Seq<u8>,
    pub cursor: nat,
    pub base_offset: u64,
    pub finished: bool,
}

impl<'a> View for BoxIter<'a> {
    type V = BoxIterModel;

    closed spec fn view(&self) -> BoxIterModel {
        BoxIterModel {
            input: self.input@,
            cursor: self.cursor as nat,
            base_offset: self.base_offset,
            finished: self.finished,
        }
    }
}

/// Whether an iterator state is one that a `BoxIter` can be in.
pub open spec fn iter_state_ok(m: BoxIterModel) -> bool {
    &&& m.cursor <= m.input.len()
    &&& m.base_offset + m.input.len() <= u64::MAX
}

/// One iteration step: what `next` yields from state `m`, and the state after it.
pub open spec fn spec_iter_step(m: BoxIterModel) -> (Option<Result<BoxModel, ParseBoxError>>, BoxIterModel) {
    if m.finished || m.cursor >= m.input.len() {
        (None, m)
    } else {
        match spec_next_box(
            m.input.subrange(m.cursor as int, m.input.len() as int),
            (m.base_offset + m.cursor) as u64,
        ) {
            Ok((b, n)) => (Some(Ok(b)), BoxIterModel { cursor: (m.cursor + n) as nat, ..m }),
            Err(e) => (Some(Err(e)), BoxIterModel { finished: true, ..m }),
        }
    }
}

/// Everything an iterator in state `m` still yields, collected.
pub open spec fn spec_iter_rest(m: BoxIterModel) -> Result<Seq<BoxModel>, ParseBoxError> {
    if m.finished {
        Ok(Seq::empty())
    } else {
        spec_boxes_at(m.input, m.cursor as int, m.base_offset as int)
    }
}

pub open spec fn opt_box_view<'a>(r: Option<Result<ParsedBox<'a>, ParseBoxError>>) -> Option<Result<BoxModel, ParseBoxError>> {
    match r {
        Some(Ok(b)) => Some(Ok(b@)),
        Some(Err(e)) => Some(Err(e)),
        None => None,
    }
}

impl<'a> BoxIter<'a> {
    #[verifier::type_invariant]
    spec fn inv(&self) -> bool {
        &&& self.cursor <= self.input@.len()
        &&& self.base_offset + self.input@.len() <= u64::MAX
    }

    pub fn new(input: &'a [u8]) -> (r: Self)
        ensures
            r@ == (BoxIterModel { input: input@, cursor: 0, base_offset: 0, finished: false }),
    {
        let n = input.len();
        assert(n as int <= u64::MAX);
        Self::with_offset(input, 0)
    }

    pub fn with_offset(input: &'a [u8], base_offset: u64) -> (r: Self)
        requires
            base_offset + input@.len() <= u64::MAX,
        ensures
            r@ == (BoxIterModel { input: input@, cursor: 0, base_offset, finished: false }),
    {
        BoxIter { input, cursor: 0, base_offset, finished: false }
    }

    /// The next box of the range, or the error that ends the iteration.
    pub fn next(&mut self) -> (r: Option<Result<ParsedBox<'a>, ParseBoxError>>)
        ensures
            opt_box_view(r) == spec_iter_step(old(self)@).0,
            final(self)@ == spec_iter_step(old(self)@).1,
    {
        proof {
            use_type_invariant(&*self);
        }
        if self.finished || self.cursor >= self.input.len() {
            return None;
        }
        let remaining = &self.input[self.cursor..self.input.len()];
        let offset = self.base_offset + self.cursor as u64;
        match parse_next_box(remaining, offset) {
            Ok((parsed_box, consumed_len)) => {
                self.cursor = self.cursor + consumed_len;
                Some(Ok(parsed_box))
            },
            Err(err) => {
                self.finished = true;
                Some(Err(err))
            },
        }
    }
}

/// Collect every remaining box of `iter`, stopping at the first error.
pub fn collect_boxes<'a>(source: BoxIter<'a>) -> (r: Result<Vec<ParsedBox<'a>>, ParseBoxError>)
    ensures
        boxes_view(r) == spec_iter_rest(source@),
        r matches Ok(v) ==> all_offsets_fit(v@),
{
    proof {
        use_type_invariant(&source);
    }
    let mut iter = source;
    let mut out: Vec<ParsedBox<'a>> = Vec::new();
    let ghost start = iter@;
    proof {
        use_type_invariant(&iter);
        assert(box_views(out@) =~= Seq::<BoxModel>::empty());
    }
    loop
        invariant
            iter_state_ok(iter@),
            iter_state_ok(start),
            start == source@,
            iter@.input == start.input,
            iter@.base_offset == start.base_offset,
            spec_iter_rest(start) == prepend_boxes(box_views(out@), spec_iter_rest(iter@)),
        decreases iter@.input.len() - iter@.cursor + (if iter@.finished { 0int } else { 1int }),
    {
        let ghost before = iter@;
        let ghost before_out = out@;
        let item = iter.next();
        proof {
            use_type_invariant(&iter);
        }
        match item {
            None => {
                proof {
                    assert(spec_iter_rest(before) == Ok::<Seq<BoxModel>, ParseBoxError>(Seq::empty()));
                    assert(box_views(out@) + Seq::<BoxModel>::empty() =~= box_views(out@));
                }
                proof {
                    if !start.finished {
                        lemma_boxes_at_tile(start.input, start.cursor as int, start.base_offset as int);
                    }
                    assert forall|i: int| 0 <= i < out@.len() implies (#[trigger] out@[i]).offsets_fit() by {
                        assert(box_views(out@)[i] == out@[i]@);
                    }
                }
                return Ok(out);
            },
            Some(Err(e)) => {
                proof {
                    assert(spec_iter_rest(before) == Err::<Seq<BoxModel>, ParseBoxError>(e));
                    assert(spec_iter_rest(start) == Err::<Seq<BoxModel>, ParseBoxError>(e));
                }
                return Err(e);
            },
            Some(Ok(b)) => {
                proof {
                    let rem = before.input.subrange(before.cursor as int, before.input.len() as int);
                    lemma_next_box_len(rem, (before.base_offset + before.cursor) as u64);
                }
                out.push(b);
                proof {
                    let prev = box_views(before_out);
                    let now = box_views(out@);
                    assert(now =~= prev.push(b@));
                    match spec_iter_rest(iter@) {
                        Ok(rest) => {
                            assert(prev + (seq![b@] + rest) =~= now + rest);
                        },
                        Err(_) => {},
                    }
                }
            },
        }
    }
}

/// Every box's absolute offsets stay within `u64`.
pub open spec fn all_offsets_fit<'a>(v: Seq<ParsedBox<'a>>) -> bool {
    forall|i: int| 0 <= i < v.len() ==> (#[trigger] v[i]).offsets_fit()
}

/// Prefix the collected boxes `done` to a collection result.
pub open spec fn prepend_boxes(done: Seq<BoxModel>, r: Result<Seq<BoxModel>, ParseBoxError>) -> Result<Seq<BoxModel>, ParseBoxError> {
    match r {
        Ok(rest) => Ok(done + rest),
        Err(e) => Err(e),
    }
}

/// Parse all top-level boxes from an input slice.
pub fn parse_boxes(input: &[u8]) -> (r: Result<Vec<ParsedBox<'_>>, ParseBoxError>)
    ensures
        boxes_view(r) == spec_boxes(input@, 0),
        r matches Ok(v) ==> all_offsets_fit(v@),
{
    collect_boxes(BoxIter::new(input))
}

pub fn parse_next_box(input: &[u8], offset: u64) -> (r: Result<(ParsedBox<'_>, usize), ParseBoxError>)
    ensures
        match r {
            Ok((b, n)) => spec_next_box(input@, offset) == Ok::<(BoxModel, int), ParseBoxError>((b@, n as int)),
            Err(e) => spec_next_box(input@, offset) == Err::<(BoxModel, int), ParseBoxError>(e),
        },
{
    let available = input.len() as u64;
    let (header, header_len) = parse_header(input, offset, available)?;
    let box_len = header.box_size as usize;
    let payload = &input[header_len..box_len];
    Ok((ParsedBox { header, payload, offset }, box_len))
}

pub fn parse_header(input: &[u8], offset: u64, available: u64) -> (r: Result<(BoxHeader, usize), ParseBoxError>)
    requires
        available == input@.len(),
    ensures
        match r {
            Ok((h, n)) => spec_header(input@, offset) == Ok::<(BoxHeader, int), ParseBoxError>((h, n as int)),
            Err(e) => spec_header(input@, offset) == Err::<(BoxHeader, int), ParseBoxError>(e),
        },
{
    if input.len() < BASIC_HEADER_SIZE {
        return Err(ParseBoxError::TruncatedHeader { offset, available: input.len() });
    }
    let box_size_32 = read_u32_be(&input[0..4]);
    let box_type = FourCc::new([input[4], input[5], input[6], input[7]]);
    let mut header_size = BASIC_HEADER_SIZE;
    let box_size = if box_size_32 == 1 {
        let needed = BASIC_HEADER_SIZE + LARGE_SIZE_FIELD_SIZE;
        if input.len() < needed {
            return Err(ParseBoxError::TruncatedLargeSize { offset, available: input.len() });
        }
        header_size = needed;
        read_u64_be(&input[BASIC_HEADER_SIZE..needed])
    } else if box_size_32 == 0 {
        available
    } else {
        box_size_32 as u64
    };
    let mut uuid = None;
    if box_type.is(UUID_BOX_TYPE) {
        let needed = header_size + UUID_EXTENDED_TYPE_SIZE;
        if input.len() < needed {
            return Err(ParseBoxError::TruncatedUuid { offset, available: input.len() });
        }
        let h = header_size;
        let uuid_bytes: [u8; 16] = [
            input[h], input[h + 1], input[h + 2], input[h + 3], input[h + 4], input[h + 5],
            input[h + 6], input[h + 7], input[h + 8], input[h + 9], input[h + 10], input[h + 11],
            input[h + 12], input[h + 13], input[h + 14], input[h + 15],
        ];
        uuid = Some(uuid_bytes);
        header_size = needed;
    }
    let header_size_u8 = header_size as u8;
    let header_size_u64 = header_size_u8 as u64;
    if box_size < header_size_u64 {
        return Err(ParseBoxError::InvalidBoxSize { offset, box_size, header_size: header_size_u8 });
    }
    if box_size > available {
        return Err(ParseBoxError::BoxOutOfBounds { offset, box_size, available });
    }
    Ok((BoxHeader { box_type, box_size, header_size: header_size_u8, uuid }, header_size))
}

} // verus!

verus! {

/// Boxes `bs` tile `input` from position `cursor` to its end, position `p` lying at
/// absolute offset `base + p`: each box starts where the previous one ended, the
/// last ends with the range, and each payload is the input bytes after its header.
pub open spec fn boxes_tile(input: Seq<u8>, cursor: int, base: int, bs: Seq<BoxModel>) -> bool {
    &&& (bs.len() == 0 <==> cursor >= input.len())
    &&& bs.len() > 0 ==> bs[0].offset == base + cursor
    &&& bs.len() > 0 ==> bs.last().offset + bs.last().header.box_size == base + input.len()
    &&& forall|i: int|
        0 <= i < bs.len() - 1 ==> #[trigger] bs[i + 1].offset == bs[i].offset + bs[i].header.box_size
    &&& forall|i: int|
        0 <= i < bs.len() ==> {
            &&& 8 <= (#[trigger] bs[i]).header.header_size <= bs[i].header.box_size
            &&& base + cursor <= bs[i].offset
            &&& bs[i].offset + bs[i].header.box_size <= base + input.len()
            &&& bs[i].payload == input.subrange(
                bs[i].offset - base + bs[i].header.header_size,
                bs[i].offset - base + bs[i].header.box_size,
            )
        }
}

/// Law (header fields): a box read at the start of `input` lies at `offset`; its
/// type is bytes 4 to 7; its size is the big-endian 32-bit value of bytes 0 to 3,
/// except that 1 there selects the big-endian 64-bit value of bytes 8 to 15 and 0
/// extends the box to the end of the range; its header is 8 bytes, 16 with the
/// 64-bit size, and 16 more for a `uuid` box, whose extended type is the 16 bytes
/// after the size; its payload is the rest of the box. A range shorter than 8
/// bytes holds no box.
pub proof fn law_box_header_fields(input: Seq<u8>, offset: u64)
    ensures
        input.len() < 8 ==> spec_next_box(input, offset) is Err,
        spec_next_box(input, offset) matches Ok((b, n)) ==> {
            let size32 = u32_value_at(input, 0);
            let base_header: int = if size32 == 1 { 16 } else { 8 };
            let is_uuid = [input[4], input[5], input[6], input[7]] == UUID_BOX_TYPE;
            &&& b.offset == offset
            &&& b.header.box_type.0 == [input[4], input[5], input[6], input[7]]
            &&& size32 == 1 ==> b.header.box_size == u32_value_at(input, 8) * 0x1_0000_0000 + u32_value_at(input, 12)
            &&& size32 == 0 && input.len() <= u64::MAX ==> b.header.box_size == input.len()
            &&& size32 > 1 ==> b.header.box_size == size32
            &&& b.header.header_size == if is_uuid { base_header + 16 } else { base_header }
            &&& b.header.uuid == if is_uuid { Some(uuid_at(input, base_header)) } else { None }
            &&& b.payload == input.subrange(b.header.header_size as int, b.header.box_size as int)
            &&& n == b.header.box_size
        },
{
    if input.len() >= 8 {
        assert(fourcc_at(input, 4).0 =~= [input[4], input[5], input[6], input[7]]);
    }
}

proof fn lemma_boxes_at_tile(input: Seq<u8>, cursor: int, base: int)
    requires
        0 <= cursor <= input.len(),
        0 <= base,
        base + input.len() <= u64::MAX,
        spec_boxes_at(input, cursor, base) is Ok,
    ensures
        boxes_tile(input, cursor, base, spec_boxes_at(input, cursor, base)->Ok_0),
    decreases input.len() - cursor,
{
    if cursor < input.len() {
        let rem = input.subrange(cursor, input.len() as int);
        lemma_next_box_len(rem, (base + cursor) as u64);
        let (b, n) = spec_next_box(rem, (base + cursor) as u64)->Ok_0;
        assert(b.payload =~= input.subrange(cursor + b.header.header_size, cursor + n));
        lemma_boxes_at_tile(input, cursor + n, base);
        let rest = spec_boxes_at(input, cursor + n, base)->Ok_0;
        let bs = seq![b] + rest;
        assert(spec_boxes_at(input, cursor, base)->Ok_0 == bs);
        assert forall|i: int| 0 <= i < bs.len() - 1 implies #[trigger] bs[i + 1].offset == bs[i].offset
            + bs[i].header.box_size by {
            if i > 0 {
                assert(bs[i] == rest[i - 1]);
                assert(bs[i + 1] == rest[i]);
                let j = i - 1;
                assert(rest[j + 1].offset == rest[j].offset + rest[j].header.box_size);
            } else {
                assert(bs[1] == rest[0]);
            }
        }
        assert forall|i: int| 0 <= i < bs.len() implies {
            &&& 8 <= (#[trigger] bs[i]).header.header_size <= bs[i].header.box_size
            &&& base + cursor <= bs[i].offset
            &&& bs[i].offset + bs[i].header.box_size <= base + input.len()
            &&& bs[i].payload == input.subrange(
                bs[i].offset - base + bs[i].header.header_size,
                bs[i].offset - base + bs[i].header.box_size,
            )
        } by {
            if i > 0 {
                assert(bs[i] == rest[i - 1]);
            }
        }
        assert(boxes_tile(input, cursor, base, bs));
        if rest.len() > 0 {
            assert(bs.last() == rest.last());
        }
    }
}

/// Law (tiling): the boxes that `parse_boxes`, `parse_children` and a `BoxIter` run
/// to its end yield lie back to back over the whole range, the first at the range's
/// own offset and the last ending with it, and each payload is the exact input bytes
/// between the end of its header and the end of its box.
pub proof fn law_boxes_tile_input(input: Seq<u8>, base: u64)
    requires
        base + input.len() <= u64::MAX,
        spec_boxes(input, base as int) is Ok,
    ensures
        boxes_tile(input, 0, base as int, spec_boxes(input, base as int)->Ok_0),
{
    lemma_boxes_at_tile(input, 0, base as int);
}

/// Law (iteration): a `BoxIter` yields, box by box, exactly what collecting it gives
/// (and so what `parse_boxes` gives for a fresh iterator): a step that yields
/// nothing leaves nothing to collect, a step that yields an error is the error of
/// the whole collection and ends the iteration, and a step that yields a box puts
/// that box in front of whatever the rest of the iteration collects.
pub proof fn law_iter_step_consumes_rest(m: BoxIterModel)
    requires
        iter_state_ok(m),
    ensures
        match spec_iter_step(m) {
            (None, _) => spec_iter_rest(m) == Ok::<Seq<BoxModel>, ParseBoxError>(Seq::empty()),
            (Some(Err(e)), after) => spec_iter_rest(m) == Err::<Seq<BoxModel>, ParseBoxError>(e)
                && after.finished && spec_iter_rest(after) == Ok::<Seq<BoxModel>, ParseBoxError>(Seq::empty()),
            (Some(Ok(b)), after) => spec_iter_rest(m) == prepend_boxes(seq![b], spec_iter_rest(after)),
        },
{
    if !m.finished && m.cursor < m.input.len() {
        let rem = m.input.subrange(m.cursor as int, m.input.len() as int);
        if spec_next_box(rem, (m.base_offset + m.cursor) as u64) is Ok {
            lemma_next_box_len(rem, (m.base_offset + m.cursor) as u64);
        }
    }
}

// ---- moving a range to another absolute offset ----

/// A box error with its offset moved by `d`.
pub open spec fn shift_error(e: ParseBoxError, d: u64) -> ParseBoxError {
    match e {
        ParseBoxError::TruncatedHeader { offset, available } =>
            ParseBoxError::TruncatedHeader { offset: (offset + d) as u64, available },
        ParseBoxError::TruncatedLargeSize { offset, available } =>
            ParseBoxError::TruncatedLargeSize { offset: (offset + d) as u64, available },
        ParseBoxError::TruncatedUuid { offset, available } =>
            ParseBoxError::TruncatedUuid { offset: (offset + d) as u64, available },
        ParseBoxError::InvalidBoxSize { offset, box_size, header_size } =>
            ParseBoxError::InvalidBoxSize { offset: (offset + d) as u64, box_size, header_size },
        ParseBoxError::BoxOutOfBounds { offset, box_size, available } =>
            ParseBoxError::BoxOutOfBounds { offset: (offset + d) as u64, box_size, available },
    }
}

/// A box with its offset moved by `d`.
pub open spec fn shift_box(b: BoxModel, d: u64) -> BoxModel {
    BoxModel { offset: (b.offset + d) as u64, ..b }
}

/// A collection of boxes, or its error, with every offset moved by `d`.
pub open spec fn shift_boxes(r: Result<Seq<BoxModel>, ParseBoxError>, d: u64) -> Result<Seq<BoxModel>, ParseBoxError> {
    match r {
        Ok(bs) => Ok(bs.map_values(|b: BoxModel| shift_box(b, d))),
        Err(e) => Err(shift_error(e, d)),
    }
}

/// One iteration output with every offset moved by `d`.
pub open spec fn shift_step(o: Option<Result<BoxModel, ParseBoxError>>, d: u64) -> Option<Result<BoxModel, ParseBoxError>> {
    match o {
        Some(Ok(b)) => Some(Ok(shift_box(b, d))),
        Some(Err(e)) => Some(Err(shift_error(e, d))),
        None => None,
    }
}

proof fn lemma_next_box_shift(input: Seq<u8>, offset: u64, d: u64)
    requires
        offset + d <= u64::MAX,
    ensures
        match spec_next_box(input, offset) {
            Ok((b, n)) => spec_next_box(input, (offset + d) as u64) == Ok::<(BoxModel, int), ParseBoxError>((shift_box(b, d), n)),
            Err(e) => spec_next_box(input, (offset + d) as u64) == Err::<(BoxModel, int), ParseBoxError>(shift_error(e, d)),
        },
{
}

proof fn lemma_boxes_at_shift(input: Seq<u8>, cursor: int, base: u64)
    requires
        0 <= cursor,
        base + input.len() <= u64::MAX,
    ensures
        spec_boxes_at(input, cursor, base as int) == shift_boxes(spec_boxes_at(input, cursor, 0), base),
    decreases input.len() - cursor,
{
    if cursor < input.len() {
        let rem = input.subrange(cursor, input.len() as int);
        lemma_next_box_shift(rem, cursor as u64, base);
        assert((0 + cursor) as u64 == cursor as u64);
        assert((base + cursor) as u64 == (cursor as u64 + base) as u64);
        match spec_next_box(rem, cursor as u64) {
            Ok((b, n)) => {
                if n > 0 {
                    lemma_boxes_at_shift(input, cursor + n, base);
                    match spec_boxes_at(input, cursor + n, 0) {
                        Ok(rest) => {
                            assert((seq![b] + rest).map_values(|x: BoxModel| shift_box(x, base))
                                =~= seq![shift_box(b, base)] + rest.map_values(|x: BoxModel| shift_box(x, base)));
                        },
                        Err(_) => {},
                    }
                } else {
                    assert(seq![b].map_values(|x: BoxModel| shift_box(x, base)) =~= seq![shift_box(b, base)]);
                }
            },
            Err(_) => {},
        }
    } else {
        assert(Seq::<BoxModel>::empty().map_values(|x: BoxModel| shift_box(x, base)) =~= Seq::<BoxModel>::empty());
    }
}

/// Law (offset shift): the boxes of a range placed at absolute offset `base` are
/// the boxes of the same range placed at offset 0, each with its offset larger by
/// `base`; where parsing fails, it fails at the same place with the same error,
/// its offset larger by `base`. Types, sizes and payloads are unchanged.
pub proof fn law_offset_shifts_boxes(input: Seq<u8>, base: u64)
    requires
        base + input.len() <= u64::MAX,
    ensures
        spec_boxes(input, base as int) == shift_boxes(spec_boxes(input, 0), base),
{
    lemma_boxes_at_shift(input, 0, base);
}

/// Law (offset shift, step by step): a `BoxIter` over a range with base offset
/// `base` yields at each step what the same iterator with base offset 0 yields,
/// with every offset larger by `base`, and moves to the same position.
pub proof fn law_offset_shifts_iteration(m: BoxIterModel)
    requires
        iter_state_ok(m),
    ensures
        ({
            let m0 = BoxIterModel { base_offset: 0, ..m };
            &&& spec_iter_step(m).0 == shift_step(spec_iter_step(m0).0, m.base_offset)
            &&& spec_iter_step(m).1 == BoxIterModel { base_offset: m.base_offset, ..spec_iter_step(m0).1 }
            &&& spec_iter_rest(m) == shift_boxes(spec_iter_rest(m0), m.base_offset)
        }),
{
    let m0 = BoxIterModel { base_offset: 0, ..m };
    if !m.finished && m.cursor < m.input.len() {
        let rem = m.input.subrange(m.cursor as int, m.input.len() as int);
        lemma_next_box_shift(rem, m.cursor as u64, m.base_offset);
        assert((m.base_offset + m.cursor) as u64 == (m.cursor as u64 + m.base_offset) as u64);
        assert((m0.base_offset + m0.cursor) as u64 == m.cursor as u64);
    }
    if !m.finished {
        lemma_boxes_at_shift(m.input, m.cursor as int, m.base_offset);
    } else {
        assert(Seq::<BoxModel>::empty().map_values(|x: BoxModel| shift_box(x, m.base_offset)) =~= Seq::<BoxModel>::empty());
    }
}

} // verus!
