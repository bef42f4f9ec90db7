//! The field decoder: it is told, item by item, what a multipart stream
//! hands out, and makes of it the fields of the body, each with all of its
//! content, in the order in which they stand in the body.

use crate::error::DecodeFailure;
use vstd::prelude::*;

verus! {

/// One named part of a multipart body: its name, the file name it came
/// with, if any, and all of its content.
#[derive(Debug, PartialEq, Eq)]
pub struct MultipartField {
    pub name: String,
    pub filename: Option<String>,
    pub content: Vec<u8>,
}

/// A `MultipartField` as sequences.
pub struct FieldView {
    pub name: Seq<char>,
    pub filename: Option<Seq<char>>,
    pub content: Seq<u8>,
}

impl View for MultipartField {
    type V = FieldView;

    open spec fn view(&self) -> FieldView {
        FieldView {
            name: self.name@,
            filename: self.filename.deep_view(),
            content: self.content@,
        }
    }
}

impl DeepView for MultipartField {
    type V = FieldView;

    open spec fn deep_view(&self) -> FieldView {
        self@
    }
}

impl FieldView {
    /// A field with this name and file name, and no content yet.
    pub open spec fn opened(name: Seq<char>, filename: Option<Seq<char>>) -> FieldView {
        FieldView { name, filename, content: Seq::empty() }
    }

    /// This field with `chunk` after the content it has.
    pub open spec fn extended(self, chunk: Seq<u8>) -> FieldView {
        FieldView { content: self.content + chunk, ..self }
    }
}

impl MultipartField {
    /// Opens a field whose headers gave `name` and `filename`: no content
    /// has been read yet.
    pub fn open(name: String, filename: Option<String>) -> (field: MultipartField)
        ensures
            field@ == FieldView::opened(name@, filename.deep_view()),
    {
        MultipartField { name, filename, content: Vec::new() }
    }

    /// Puts `chunk` after the content read so far.
    pub fn extend(&mut self, chunk: Vec<u8>)
        ensures
            final(self)@ == old(self)@.extended(chunk@),
    {
        let mut chunk = chunk;
        self.content.append(&mut chunk);
    }
}

/// One thing that a multipart stream hands out.
#[derive(Debug, PartialEq, Eq)]
pub enum StreamItem {
    /// The next field has begun: the name and the file name that its
    /// headers gave, as far as they gave any.
    FieldStart { name: Option<String>, filename: Option<String> },
    /// The next chunk of the open field's content.
    Chunk(Vec<u8>),
    /// The open field has no more content.
    FieldEnd,
    /// The stream could not hand out its next field.
    FieldError,
    /// The open field could not hand out its next chunk.
    ChunkError,
    /// The stream has no more fields.
    End,
}

/// A `StreamItem` as sequences.
pub enum ItemView {
    FieldStart { name: Option<Seq<char>>, filename: Option<Seq<char>> },
    Chunk(Seq<u8>),
    FieldEnd,
    FieldError,
    ChunkError,
    End,
}

impl View for StreamItem {
    type V = ItemView;

    open spec fn view(&self) -> ItemView {
        match *self {
            StreamItem::FieldStart { name, filename } => ItemView::FieldStart {
                name: name.deep_view(),
                filename: filename.deep_view(),
            },
            StreamItem::Chunk(chunk) => ItemView::Chunk(chunk@),
            StreamItem::FieldEnd => ItemView::FieldEnd,
            StreamItem::FieldError => ItemView::FieldError,
            StreamItem::ChunkError => ItemView::ChunkError,
            StreamItem::End => ItemView::End,
        }
    }
}

impl DeepView for StreamItem {
    type V = ItemView;

    open spec fn deep_view(&self) -> ItemView {
        self@
    }
}

/// Where the decoder stands in the body. Its state says what is to be asked
/// of the stream next: between fields the next field, inside a field the
/// field's next chunk, and nothing once it has settled.
#[derive(Debug, PartialEq, Eq)]
pub enum FieldDecoder {
    /// Between fields.
    AwaitingField,
    /// Inside a named field: what has been read of it.
    InField { field: MultipartField },
    /// Inside a field without a name: its content is read and dropped.
    Skipping,
    /// The body was read to its end.
    Finished,
    /// The reading was given up.
    Failed { failure: DecodeFailure },
}

/// What the decoder asks of the stream next.
#[derive(Debug, Clone, Copy, PartialEq, Eq, Structural)]
pub enum Demand {
    /// The stream's next field.
    Field,
    /// The open field's next chunk.
    Chunk,
    /// Nothing: the decoding is over.
    Nothing,
}

/// A `FieldDecoder` as sequences.
pub enum DecoderView {
    AwaitingField,
    InField { field: FieldView },
    Skipping,
    Finished,
    Failed { failure: DecodeFailure },
}

impl View for FieldDecoder {
    type V = DecoderView;

    open spec fn view(&self) -> DecoderView {
        match *self {
            FieldDecoder::AwaitingField => DecoderView::AwaitingField,
            FieldDecoder::InField { field } => DecoderView::InField { field: field@ },
            FieldDecoder::Skipping => DecoderView::Skipping,
            FieldDecoder::Finished => DecoderView::Finished,
            FieldDecoder::Failed { failure } => DecoderView::Failed { failure },
        }
    }
}

impl DecoderView {
    /// The decoder before anything was read.
    pub open spec fn initial() -> DecoderView {
        DecoderView::AwaitingField
    }

    /// Nothing more will be read: the decoder is finished or has failed.
    pub open spec fn settled(self) -> bool {
        self is Finished || self is Failed
    }

    /// What is to be asked of the stream next: between fields the next
    /// field, inside a field, named or not, the field's next chunk, and
    /// nothing once the decoder has settled.
    pub open spec fn wants(self) -> Demand {
        match self {
            DecoderView::AwaitingField => Demand::Field,
            DecoderView::InField { field } => Demand::Chunk,
            DecoderView::Skipping => Demand::Chunk,
            DecoderView::Finished => Demand::Nothing,
            DecoderView::Failed { failure } => Demand::Nothing,
        }
    }

    /// The state after `item`.
    ///
    /// A field with a name is opened and filled chunk by chunk until it
    /// ends. A field without a name is read to its end and dropped. The end
    /// of the stream between two fields finishes the decoding. An error
    /// that the stream reports ends it as a failure, and so does an item
    /// that cannot follow what came before: a body in which that happens is
    /// malformed. A settled decoder stays as it is.
    pub open spec fn after(self, item: ItemView) -> DecoderView {
        match self {
            DecoderView::AwaitingField => match item {
                ItemView::FieldStart { name: Some(name), filename } => DecoderView::InField {
                    field: FieldView::opened(name, filename),
                },
                ItemView::FieldStart { name: None, filename } => DecoderView::Skipping,
                ItemView::End => DecoderView::Finished,
                ItemView::ChunkError => DecoderView::Failed { failure: DecodeFailure::ChunkRead },
                _ => DecoderView::Failed { failure: DecodeFailure::MalformedField },
            },
            DecoderView::InField { field } => match item {
                ItemView::Chunk(chunk) => DecoderView::InField { field: field.extended(chunk) },
                ItemView::FieldEnd => DecoderView::AwaitingField,
                ItemView::ChunkError => DecoderView::Failed { failure: DecodeFailure::ChunkRead },
                _ => DecoderView::Failed { failure: DecodeFailure::MalformedField },
            },
            DecoderView::Skipping => match item {
                ItemView::Chunk(chunk) => DecoderView::Skipping,
                ItemView::FieldEnd => DecoderView::AwaitingField,
                ItemView::ChunkError => DecoderView::Failed { failure: DecodeFailure::ChunkRead },
                _ => DecoderView::Failed { failure: DecodeFailure::MalformedField },
            },
            DecoderView::Finished => self,
            DecoderView::Failed { failure } => self,
        }
    }

    /// The field that `item` completes: the open field, when it ends.
    pub open spec fn yields(self, item: ItemView) -> Option<FieldView> {
        match self {
            DecoderView::InField { field } => match item {
                ItemView::FieldEnd => Some(field),
                _ => None,
            },
            _ => None,
        }
    }
}

/// The state that `items`, one after the other, take `state` to.
pub open spec fn decoded(state: DecoderView, items: Seq<ItemView>) -> DecoderView
    decreases items.len(),
{
    if items.len() == 0 {
        state
    } else {
        decoded(state, items.drop_last()).after(items.last())
    }
}

/// The fields that are completed while `items` are read from `state` on,
/// in the order in which they are completed.
pub open spec fn fields_of(state: DecoderView, items: Seq<ItemView>) -> Seq<FieldView>
    decreases items.len(),
{
    if items.len() == 0 {
        Seq::empty()
    } else {
        let earlier = fields_of(state, items.drop_last());
        match decoded(state, items.drop_last()).yields(items.last()) {
            Some(field) => earlier.push(field),
            None => earlier,
        }
    }
}

impl FieldDecoder {
    /// The decoder before anything was read.
    pub fn new() -> (decoder: FieldDecoder)
        ensures
            decoder@ == DecoderView::initial(),
    {
        FieldDecoder::AwaitingField
    }

    /// Says what is to be asked of the stream next. Nothing is asked for
    /// exactly when the decoder has settled.
    pub fn wants(&self) -> (demand: Demand)
        ensures
            demand == self@.wants(),
            demand is Nothing <==> self@.settled(),
    {
        match self {
            FieldDecoder::AwaitingField => Demand::Field,
            FieldDecoder::InField { field: _ } => Demand::Chunk,
            FieldDecoder::Skipping => Demand::Chunk,
            FieldDecoder::Finished => Demand::Nothing,
            FieldDecoder::Failed { failure: _ } => Demand::Nothing,
        }
    }

    /// Takes the next thing that the stream handed out: the state it leaves
    /// the decoder in, and the field that it completes, if it completes
    /// one.
    pub fn accept(self, item: StreamItem) -> (r: (FieldDecoder, Option<MultipartField>))
        ensures
            r.0@ == self@.after(item@),
            r.1.deep_view() == self@.yields(item@),
    {
        match self {
            FieldDecoder::AwaitingField => match item {
                StreamItem::FieldStart { name: Some(name), filename } => (
                    FieldDecoder::InField { field: MultipartField::open(name, filename) },
                    None,
                ),
                StreamItem::FieldStart { name: None, filename: _ } => (
                    FieldDecoder::Skipping,
                    None,
                ),
                StreamItem::End => (FieldDecoder::Finished, None),
                StreamItem::ChunkError => (
                    FieldDecoder::Failed { failure: DecodeFailure::ChunkRead },
                    None,
                ),
                _ => (FieldDecoder::Failed { failure: DecodeFailure::MalformedField }, None),
            },
            FieldDecoder::InField { field } => match item {
                StreamItem::Chunk(chunk) => {
                    let mut field = field;
                    field.extend(chunk);
                    (FieldDecoder::InField { field }, None)
                },
                StreamItem::FieldEnd => (FieldDecoder::AwaitingField, Some(field)),
                StreamItem::ChunkError => (
                    FieldDecoder::Failed { failure: DecodeFailure::ChunkRead },
                    None,
                ),
                _ => (FieldDecoder::Failed { failure: DecodeFailure::MalformedField }, None),
            },
            FieldDecoder::Skipping => match item {
                StreamItem::Chunk(_) => (FieldDecoder::Skipping, None),
                StreamItem::FieldEnd => (FieldDecoder::AwaitingField, None),
                StreamItem::ChunkError => (
                    FieldDecoder::Failed { failure: DecodeFailure::ChunkRead },
                    None,
                ),
                _ => (FieldDecoder::Failed { failure: DecodeFailure::MalformedField }, None),
            },
            FieldDecoder::Finished => (FieldDecoder::Finished, None),
            FieldDecoder::Failed { failure } => (FieldDecoder::Failed { failure }, None),
        }
    }
}

/// Decodes a recorded stream from its start: the fields that it completes,
/// in their order, and the state in which it leaves the decoder. Fields
/// completed before a failure are among them; none follows a failure.
pub fn decode(items: Vec<StreamItem>) -> (r: (Vec<MultipartField>, FieldDecoder))
    ensures
        r.0.deep_view() == fields_of(DecoderView::initial(), items.deep_view()),
        r.1@ == decoded(DecoderView::initial(), items.deep_view()),
{
    let ghost all = items.deep_view();
    let mut fields: Vec<MultipartField> = Vec::new();
    let mut decoder = FieldDecoder::new();
    proof {
        assert(fields.deep_view() =~= Seq::<FieldView>::empty());
    }
    for item in it: items
        invariant
            it.seq().len() == all.len(),
            forall|i: int| 0 <= i < all.len() ==> (#[trigger] it.seq()[i])@ == all[i],
            fields.deep_view() == fields_of(DecoderView::initial(), all.take(it.index())),
            decoder@ == decoded(DecoderView::initial(), all.take(it.index())),
    {
        let ghost earlier = fields.deep_view();
        proof {
            let done = it.index();
            assert(all.take(done + 1).drop_last() =~= all.take(done));
            assert(all.take(done + 1).last() == all[done]);
        }
        let (next, completed) = decoder.accept(item);
        decoder = next;
        if let Some(field) = completed {
            fields.push(field);
            proof {
                assert(fields.deep_view() =~= earlier.push(field@));
            }
        }
    }
    proof {
        assert(all.take(all.len() as int) =~= all);
    }
    (fields, decoder)
}

/// One chunk item for each of `chunks`, in their order.
pub open spec fn chunk_items(chunks: Seq<Seq<u8>>) -> Seq<ItemView> {
    chunks.map_values(|chunk: Seq<u8>| ItemView::Chunk(chunk))
}

/// The items in which a stream hands out `field` whole: its start, its
/// content in one chunk, its end.
pub open spec fn field_items(field: FieldView) -> Seq<ItemView> {
    seq![
        ItemView::FieldStart { name: Some(field.name), filename: field.filename },
        ItemView::Chunk(field.content),
        ItemView::FieldEnd,
    ]
}

/// The items in which a stream hands out `fields`, one field after the
/// other.
pub open spec fn body_items(fields: Seq<FieldView>) -> Seq<ItemView>
    decreases fields.len(),
{
    if fields.len() == 0 {
        Seq::empty()
    } else {
        body_items(fields.drop_last()) + field_items(fields.last())
    }
}

/// Decoding one run of items after another is decoding the two as one: the
/// second run starts where the first ends, and its fields follow those of
/// the first.
pub proof fn lemma_decoding_in_two_parts(
    state: DecoderView,
    first: Seq<ItemView>,
    second: Seq<ItemView>,
)
    ensures
        decoded(state, first + second) == decoded(decoded(state, first), second),
        fields_of(state, first + second) == fields_of(state, first) + fields_of(
            decoded(state, first),
            second,
        ),
    decreases second.len(),
{
    if second.len() == 0 {
        assert(first + second =~= first);
        assert(fields_of(state, first) + Seq::<FieldView>::empty() =~= fields_of(state, first));
    } else {
        let middle = decoded(state, first);
        assert((first + second).drop_last() =~= first + second.drop_last());
        lemma_decoding_in_two_parts(state, first, second.drop_last());
        if let Some(field) = decoded(middle, second.drop_last()).yields(second.last()) {
            assert((fields_of(state, first) + fields_of(middle, second.drop_last())).push(field)
                =~= fields_of(state, first) + fields_of(middle, second.drop_last()).push(field));
        }
    }
}

/// Decoding a single item is one step.
pub proof fn lemma_decoding_of_one(state: DecoderView, item: ItemView)
    ensures
        decoded(state, seq![item]) == state.after(item),
        fields_of(state, seq![item]) == match state.yields(item) {
            Some(field) => seq![field],
            None => Seq::<FieldView>::empty(),
        },
{
    let none = Seq::<ItemView>::empty();
    assert(seq![item].drop_last() =~= none);
    assert(decoded(state, none) == state);
    assert(fields_of(state, none) == Seq::<FieldView>::empty());
    if let Some(field) = state.yields(item) {
        assert(Seq::<FieldView>::empty().push(field) =~= seq![field]);
    }
}

/// Once the decoder is finished or has failed, nothing that the stream
/// hands out changes it, and no field is completed any more.
pub proof fn lemma_settled_stays(state: DecoderView, items: Seq<ItemView>)
    requires
        state.settled(),
    ensures
        decoded(state, items) == state,
        fields_of(state, items) == Seq::<FieldView>::empty(),
    decreases items.len(),
{
    if items.len() > 0 {
        lemma_settled_stays(state, items.drop_last());
    }
}

proof fn lemma_skipping_drops_chunks(chunks: Seq<Seq<u8>>)
    ensures
        decoded(DecoderView::Skipping, chunk_items(chunks)) == DecoderView::Skipping,
        fields_of(DecoderView::Skipping, chunk_items(chunks)) == Seq::<FieldView>::empty(),
    decreases chunks.len(),
{
    if chunks.len() > 0 {
        assert(chunk_items(chunks).drop_last() =~= chunk_items(chunks.drop_last()));
        lemma_skipping_drops_chunks(chunks.drop_last());
    }
}

/// The items in which a stream hands out a field without a name: its
/// start, its chunks, its end.
pub open spec fn nameless_field_items(filename: Option<Seq<char>>, chunks: Seq<Seq<u8>>) -> Seq<
    ItemView,
> {
    seq![ItemView::FieldStart { name: None, filename }] + chunk_items(chunks)
        + seq![ItemView::FieldEnd]
}

proof fn lemma_nameless_field_leads_back(filename: Option<Seq<char>>, chunks: Seq<Seq<u8>>)
    ensures
        decoded(DecoderView::AwaitingField, nameless_field_items(filename, chunks))
            == DecoderView::AwaitingField,
        fields_of(DecoderView::AwaitingField, nameless_field_items(filename, chunks)) == Seq::<
            FieldView,
        >::empty(),
{
    let state = DecoderView::AwaitingField;
    let start = seq![ItemView::FieldStart { name: None, filename }];
    let end = seq![ItemView::FieldEnd];
    let none = Seq::<FieldView>::empty();
    lemma_decoding_in_two_parts(state, start + chunk_items(chunks), end);
    lemma_decoding_in_two_parts(state, start, chunk_items(chunks));
    lemma_decoding_of_one(state, start[0]);
    lemma_skipping_drops_chunks(chunks);
    lemma_decoding_of_one(DecoderView::Skipping, end[0]);
    assert(none + none + none =~= none);
}

/// A field without a name is skipped, and what follows it is decoded as if
/// the field had not been there: wherever it stands between two fields of
/// a body, it completes no field, and the decoding of the rest of the body
/// goes on from where it stood.
pub proof fn lemma_nameless_field_is_skipped(
    state: DecoderView,
    before: Seq<ItemView>,
    filename: Option<Seq<char>>,
    chunks: Seq<Seq<u8>>,
    rest: Seq<ItemView>,
)
    requires
        decoded(state, before) is AwaitingField,
    ensures
        decoded(state, before + nameless_field_items(filename, chunks) + rest) == decoded(
            state,
            before + rest,
        ),
        fields_of(state, before + nameless_field_items(filename, chunks) + rest) == fields_of(
            state,
            before + rest,
        ),
{
    let nameless = nameless_field_items(filename, chunks);
    let none = Seq::<FieldView>::empty();
    lemma_nameless_field_leads_back(filename, chunks);
    lemma_decoding_in_two_parts(state, before + nameless, rest);
    lemma_decoding_in_two_parts(state, before, nameless);
    lemma_decoding_in_two_parts(state, before, rest);
    assert(fields_of(state, before) + none =~= fields_of(state, before));
}

/// Where one chunk stops and the next begins does not matter: two chunks
/// are decoded as the one chunk that holds the bytes of both.
pub proof fn lemma_chunk_boundary_is_immaterial(
    state: DecoderView,
    before: Seq<ItemView>,
    first: Seq<u8>,
    second: Seq<u8>,
    rest: Seq<ItemView>,
)
    ensures
        decoded(state, before + seq![ItemView::Chunk(first), ItemView::Chunk(second)] + rest)
            == decoded(state, before + seq![ItemView::Chunk(first + second)] + rest),
        fields_of(state, before + seq![ItemView::Chunk(first), ItemView::Chunk(second)] + rest)
            == fields_of(state, before + seq![ItemView::Chunk(first + second)] + rest),
{
    let apart = seq![ItemView::Chunk(first), ItemView::Chunk(second)];
    let joined = seq![ItemView::Chunk(first + second)];
    let reached = decoded(state, before);
    lemma_decoding_in_two_parts(state, before + apart, rest);
    lemma_decoding_in_two_parts(state, before, apart);
    lemma_decoding_in_two_parts(state, before + joined, rest);
    lemma_decoding_in_two_parts(state, before, joined);
    lemma_decoding_of_one(reached, joined[0]);
    assert(apart =~= seq![apart[0]] + seq![apart[1]]);
    lemma_decoding_in_two_parts(reached, seq![apart[0]], seq![apart[1]]);
    lemma_decoding_of_one(reached, apart[0]);
    lemma_decoding_of_one(reached.after(apart[0]), apart[1]);
    if let DecoderView::InField { field } = reached {
        assert(field.extended(first).extended(second).content =~= field.extended(
            first + second,
        ).content);
    }
    assert(fields_of(reached, apart) =~= fields_of(reached, joined));
}

/// Decoding is a function of what the stream hands out: two decodings that
/// start afresh and are handed the same items in the same order complete
/// the same fields and end in the same state.
pub proof fn lemma_replay_decodes_alike(first: Seq<ItemView>, second: Seq<ItemView>)
    requires
        first.len() == second.len(),
        forall|i: int| 0 <= i < first.len() ==> first[i] == second[i],
    ensures
        decoded(DecoderView::initial(), first) == decoded(DecoderView::initial(), second),
        fields_of(DecoderView::initial(), first) == fields_of(DecoderView::initial(), second),
{
    assert(first =~= second);
}

/// A body of whole, named fields is decoded into just these fields, in the
/// order in which they stand in the body, and leaves the decoder between
/// fields.
pub proof fn lemma_whole_fields_are_decoded(fields: Seq<FieldView>)
    ensures
        decoded(DecoderView::initial(), body_items(fields)) == DecoderView::AwaitingField,
        fields_of(DecoderView::initial(), body_items(fields)) == fields,
    decreases fields.len(),
{
    let state = DecoderView::initial();
    if fields.len() > 0 {
        let field = fields.last();
        let items = field_items(field);
        let opened = FieldView::opened(field.name, field.filename);
        lemma_whole_fields_are_decoded(fields.drop_last());
        lemma_decoding_in_two_parts(state, body_items(fields.drop_last()), items);
        assert(items =~= seq![items[0]] + seq![items[1]] + seq![items[2]]);
        lemma_decoding_in_two_parts(state, seq![items[0]] + seq![items[1]], seq![items[2]]);
        lemma_decoding_in_two_parts(state, seq![items[0]], seq![items[1]]);
        lemma_decoding_of_one(state, items[0]);
        lemma_decoding_of_one(DecoderView::InField { field: opened }, items[1]);
        lemma_decoding_of_one(
            DecoderView::InField { field: opened.extended(field.content) },
            items[2],
        );
        assert(opened.extended(field.content).content =~= field.content);
        assert(fields_of(state, items) =~= seq![field]);
        assert(fields.drop_last() + seq![field] =~= fields);
    } else {
        assert(fields =~= Seq::<FieldView>::empty());
    }
}

} // verus!
