//! The intake of a submission: the field decoder and the assembler put
//! together. The caller reads the multipart stream and reports each thing
//! that the stream hands out; every field that is completed is folded into
//! the record at once.

use crate::error::DecodeFailure;
use crate::multipart::{
    body_items, decoded, fields_of, lemma_decoding_in_two_parts, lemma_decoding_of_one,
    lemma_whole_fields_are_decoded, DecoderView, Demand, FieldDecoder, FieldView, ItemView,
    StreamItem,
};
use crate::submission::{assembled, RecordView, SubmissionRecord};
use vstd::prelude::*;

verus! {

/// What the caller is told once a submission was read to its end.
pub const ACKNOWLEDGEMENT: &'static str =
    "Received data successfully. On-chain creation coming soon!";

/// A submission that is being read: where the decoder stands, and the
/// record of the fields completed so far.
#[derive(Debug, PartialEq, Eq)]
pub struct Intake {
    pub decoder: FieldDecoder,
    pub record: SubmissionRecord,
}

/// An `Intake` as sequences.
pub struct IntakeView {
    pub decoder: DecoderView,
    pub record: RecordView,
}

impl View for Intake {
    type V = IntakeView;

    open spec fn view(&self) -> IntakeView {
        IntakeView { decoder: self.decoder@, record: self.record@ }
    }
}

impl IntakeView {
    /// The intake before anything was read.
    pub open spec fn initial() -> IntakeView {
        IntakeView { decoder: DecoderView::initial(), record: RecordView::empty() }
    }

    /// The intake after `item`: the decoder takes the item, and the field
    /// that the item completes, if it completes one, is folded into the
    /// record.
    pub open spec fn after(self, item: ItemView) -> IntakeView {
        IntakeView {
            decoder: self.decoder.after(item),
            record: match self.decoder.yields(item) {
                Some(field) => self.record.absorbed(field),
                None => self.record,
            },
        }
    }

    /// What the intake has come to: the submission once the body was read
    /// to its end, the failure once the reading was given up, and nothing
    /// as long as there is more to read. A record that is not finished is
    /// never handed out.
    pub open spec fn outcome(self) -> Option<Result<RecordView, DecodeFailure>> {
        match self.decoder {
            DecoderView::Finished => Some(Ok(self.record)),
            DecoderView::Failed { failure } => Some(Err(failure)),
            _ => None,
        }
    }
}

/// The intake that `items`, one after the other, take `state` to.
pub open spec fn run(state: IntakeView, items: Seq<ItemView>) -> IntakeView
    decreases items.len(),
{
    if items.len() == 0 {
        state
    } else {
        run(state, items.drop_last()).after(items.last())
    }
}

/// An outcome with its record by its view.
pub open spec fn outcome_view(outcome: Option<Result<SubmissionRecord, DecodeFailure>>) -> Option<
    Result<RecordView, DecodeFailure>,
> {
    match outcome {
        Some(Ok(record)) => Some(Ok(record@)),
        Some(Err(failure)) => Some(Err(failure)),
        None => None,
    }
}

impl Intake {
    /// The intake before anything was read.
    pub fn new() -> (intake: Intake)
        ensures
            intake@ == IntakeView::initial(),
    {
        Intake { decoder: FieldDecoder::new(), record: SubmissionRecord::new() }
    }

    /// Says what is to be asked of the stream next. Nothing is asked for
    /// exactly when the intake has come to an outcome.
    pub fn wants(&self) -> (demand: Demand)
        ensures
            demand == self@.decoder.wants(),
            demand is Nothing <==> self@.outcome() is Some,
    {
        self.decoder.wants()
    }

    /// Takes the next thing that the stream handed out.
    pub fn accept(self, item: StreamItem) -> (next: Intake)
        ensures
            next@ == self@.after(item@),
    {
        let Intake { decoder, record } = self;
        let mut record = record;
        let (decoder, completed) = decoder.accept(item);
        if let Some(field) = completed {
            record.absorb(field);
        }
        Intake { decoder, record }
    }

    /// What the intake has come to: the submission, the failure, or
    /// nothing as long as there is more to read.
    pub fn outcome(self) -> (outcome: Option<Result<SubmissionRecord, DecodeFailure>>)
        ensures
            outcome_view(outcome) == self@.outcome(),
    {
        match self.decoder {
            FieldDecoder::Finished => Some(Ok(self.record)),
            FieldDecoder::Failed { failure } => Some(Err(failure)),
            _ => None,
        }
    }
}

/// Reads a recorded stream from its start: the intake that `items` leave
/// behind.
pub fn replay(items: Vec<StreamItem>) -> (end: Intake)
    ensures
        end@ == run(IntakeView::initial(), items.deep_view()),
{
    let ghost all = items.deep_view();
    let mut intake = Intake::new();
    for item in it: items
        invariant
            it.seq().len() == all.len(),
            forall|i: int| 0 <= i < all.len() ==> (#[trigger] it.seq()[i])@ == all[i],
            intake@ == run(IntakeView::initial(), all.take(it.index())),
    {
        proof {
            let done = it.index();
            assert(all.take(done + 1).drop_last() =~= all.take(done));
            assert(all.take(done + 1).last() == all[done]);
        }
        intake = intake.accept(item);
    }
    proof {
        assert(all.take(all.len() as int) =~= all);
    }
    intake
}

/// The intake is the decoder and the assembler, one after the other: after
/// any items at all, its decoder stands where decoding these items ends,
/// and its record is what the fields completed so far assemble to, in the
/// order in which they were completed.
pub proof fn lemma_intake_decodes_then_assembles(items: Seq<ItemView>)
    ensures
        run(IntakeView::initial(), items) == (IntakeView {
            decoder: decoded(DecoderView::initial(), items),
            record: assembled(fields_of(DecoderView::initial(), items)),
        }),
    decreases items.len(),
{
    if items.len() > 0 {
        let earlier = fields_of(DecoderView::initial(), items.drop_last());
        lemma_intake_decodes_then_assembles(items.drop_last());
        if let Some(field) = decoded(DecoderView::initial(), items.drop_last()).yields(
            items.last(),
        ) {
            assert(earlier.push(field).drop_last() =~= earlier);
        }
    }
}

/// A body of whole, named fields, read to its end, is the submission that
/// its fields assemble to.
pub proof fn lemma_whole_body_is_assembled(fields: Seq<FieldView>)
    ensures
        run(IntakeView::initial(), body_items(fields) + seq![ItemView::End]).outcome() == Some(
            Ok::<RecordView, DecodeFailure>(assembled(fields)),
        ),
{
    let state = DecoderView::initial();
    let end = seq![ItemView::End];
    lemma_intake_decodes_then_assembles(body_items(fields) + end);
    lemma_whole_fields_are_decoded(fields);
    lemma_decoding_in_two_parts(state, body_items(fields), end);
    lemma_decoding_of_one(DecoderView::AwaitingField, ItemView::End);
    assert(fields + Seq::<FieldView>::empty() =~= fields);
}

/// Reading is a function of what the stream hands out: two intakes that
/// start afresh and are handed the same items in the same order end alike.
pub proof fn lemma_replay_ends_alike(first: Seq<ItemView>, second: Seq<ItemView>)
    requires
        first.len() == second.len(),
        forall|i: int| 0 <= i < first.len() ==> first[i] == second[i],
    ensures
        run(IntakeView::initial(), first) == run(IntakeView::initial(), second),
{
    assert(first =~= second);
}

} // verus!
