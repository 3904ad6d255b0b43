//! The plan of a conversion, and the proof that every run follows it.
//!
//! The plan is the full list of requests of a conversion whose intermediate
//! has a given number of bands. Whatever the engine replies, the requests
//! that the machine issues are a prefix of that list: nothing is asked out of
//! order, nothing is skipped, and the output is written only after every
//! band of the intermediate carries its no-data marker.

use crate::config::Args;
use crate::errors::ErrorKind;
use crate::pipeline::{creation_options, Conversion, Driver, Reply, RequestView, Stage, StepView};
use vstd::prelude::*;

verus! {

/// The requests that come before the marking of the bands.
pub open spec fn prelude(args: Args) -> Seq<RequestView> {
    seq![
        RequestView::OpenSource { path: args.input_path@ },
        RequestView::FindDriver { driver: Driver::Cog },
        RequestView::FindDriver { driver: Driver::Vrt },
        RequestView::CreateTempFile,
        RequestView::CopyToIntermediate { driver: Driver::Vrt, options: creation_options(args) },
        RequestView::CountBands,
    ]
}

/// How many bands are marked for a reported band count: the count itself, or
/// none where it is not positive.
pub open spec fn band_total(count: isize) -> nat {
    if count >= 1 {
        count as nat
    } else {
        0
    }
}

/// The marking of the bands: one request per band, from band 1 through band
/// `count`, each with the configured no-data value.
pub open spec fn marks(args: Args, count: isize) -> Seq<RequestView> {
    Seq::new(
        band_total(count),
        |i: int| RequestView::SetNoData { band: (i + 1) as isize, value: args.no_data_value },
    )
}

/// The copy that ends a conversion.
pub open spec fn final_copy(args: Args) -> RequestView {
    RequestView::CopyToOutput {
        driver: Driver::Cog,
        path: args.output_path@,
        options: creation_options(args),
    }
}

/// Every request of a conversion whose intermediate has `count` bands, in
/// order.
pub open spec fn plan(args: Args, count: isize) -> Seq<RequestView> {
    prelude(args) + marks(args, count) + seq![final_copy(args)]
}

/// The conversion of a configuration at its start.
pub open spec fn start(args: Args) -> Conversion {
    Conversion { args, stage: Stage::Opening }
}

/// Where a conversion stands after a sequence of replies. Once it has
/// finished or failed, further replies change nothing.
pub open spec fn after(args: Args, replies: Seq<Reply>) -> StepView
    decreases replies.len(),
{
    if replies.len() == 0 {
        StepView::Continue(start(args))
    } else {
        match after(args, replies.drop_last()) {
            StepView::Continue(conversion) => conversion.next(replies.last()),
            ended => ended,
        }
    }
}

/// The requests that a conversion has issued after a sequence of replies,
/// the pending one included.
pub open spec fn issued(args: Args, replies: Seq<Reply>) -> Seq<RequestView>
    decreases replies.len(),
{
    if replies.len() == 0 {
        seq![start(args).pending()]
    } else {
        let before = issued(args, replies.drop_last());
        match after(args, replies) {
            StepView::Continue(conversion) => before.push(conversion.pending()),
            _ => before,
        }
    }
}

/// The place in the replies of the answer to the counting request.
pub open spec fn count_slot() -> int {
    5
}

/// The band count that a sequence of replies reports: the one given in
/// answer to the counting request, or 0 where none was given.
pub open spec fn reported_bands(replies: Seq<Reply>) -> isize {
    if replies.len() > count_slot() && replies[count_slot()] is Bands {
        replies[count_slot()]->Bands_0
    } else {
        0
    }
}

/// The replies of a run in which every request succeeds and the intermediate
/// has `count` bands.
pub open spec fn smooth_replies(count: isize) -> Seq<Reply> {
    Seq::new(
        7 + band_total(count),
        |i: int|
            if i == count_slot() {
                Reply::Bands(count)
            } else {
                Reply::Done
            },
    )
}

/// The place of a stage's request in the plan for `count` bands.
spec fn slot(stage: Stage, count: isize) -> int {
    match stage {
        Stage::Opening => 0,
        Stage::FindingCog => 1,
        Stage::FindingVrt => 2,
        Stage::ReservingTemp => 3,
        Stage::Preparing => 4,
        Stage::Counting => 5,
        Stage::Marking { band, count: _ } => 5 + band,
        Stage::Finalizing => 6 + band_total(count) as int,
    }
}

/// Whether a stage can occur in a run with `count` bands.
spec fn fits(stage: Stage, count: isize) -> bool {
    &&& stage.in_range()
    &&& stage matches Stage::Marking { band, count: of } ==> of == count
}

/// Whether `count` is the band count that the replies report, as far as
/// they report one.
spec fn agrees(replies: Seq<Reply>, count: isize) -> bool {
    replies.len() > count_slot() && replies[count_slot()] is Bands ==> replies[count_slot()]
        ->Bands_0 == count
}

/// What holds of a run after any sequence of replies.
spec fn on_plan(args: Args, replies: Seq<Reply>, count: isize) -> bool {
    let sent = issued(args, replies);
    let whole = plan(args, count);
    &&& sent.len() <= whole.len()
    &&& sent =~= whole.take(sent.len() as int)
    &&& match after(args, replies) {
        StepView::Continue(conversion) => {
            &&& conversion.args == args
            &&& fits(conversion.stage, count)
            &&& slot(conversion.stage, count) == replies.len()
            &&& sent.len() == replies.len() + 1
        },
        StepView::Finished(path) => path == args.output_path@ && sent.len() == whole.len(),
        StepView::Failed(_) => true,
    }
}

/// A stage's request stands in the plan at the stage's place.
proof fn lemma_slot_in_plan(args: Args, stage: Stage, count: isize)
    requires
        fits(stage, count),
    ensures
        0 <= slot(stage, count) < plan(args, count).len(),
        plan(args, count)[slot(stage, count)] == (Conversion { args, stage }).pending(),
{
}

/// The run stays on the plan whatever the replies are.
proof fn lemma_on_plan(args: Args, replies: Seq<Reply>, count: isize)
    requires
        agrees(replies, count),
    ensures
        on_plan(args, replies, count),
    decreases replies.len(),
{
    if replies.len() == 0 {
        lemma_slot_in_plan(args, Stage::Opening, count);
    } else {
        let earlier = replies.drop_last();
        lemma_on_plan(args, earlier, count);
        match after(args, earlier) {
            StepView::Continue(conversion) => {
                let reply = replies.last();
                lemma_slot_in_plan(args, conversion.stage, count);
                if let StepView::Continue(onward) = conversion.next(reply) {
                    lemma_slot_in_plan(args, onward.stage, count);
                }
            },
            _ => {},
        }
    }
}

/// Every run follows the plan, and every run ends. After any sequence of
/// replies, the requests issued so far are the beginning of the plan for the
/// band count that the replies report. While the conversion is under way,
/// it stands at a band in range, every reply has been answered by exactly
/// one further request, and there are fewer replies than the plan has
/// requests. Once it has finished, the whole plan has been issued and the
/// result is the output path.
pub proof fn lemma_run_follows_plan(args: Args, replies: Seq<Reply>)
    ensures
        issued(args, replies).is_prefix_of(plan(args, reported_bands(replies))),
        after(args, replies) matches StepView::Continue(conversion) ==> {
            &&& conversion.args == args
            &&& conversion.stage.in_range()
            &&& issued(args, replies).len() == replies.len() + 1
            &&& replies.len() < plan(args, reported_bands(replies)).len()
        },
        after(args, replies) matches StepView::Finished(path) ==> path == args.output_path@
            && issued(args, replies) == plan(args, reported_bands(replies)),
{
    lemma_on_plan(args, replies, reported_bands(replies));
}

/// The output is written only after every band is marked. Wherever a run
/// asks for the final copy, it has asked before, band by band from 1 through
/// the reported count, for the configured no-data value to be set; and the
/// final copy is the last request of the plan.
pub proof fn lemma_marks_precede_output(args: Args, replies: Seq<Reply>, at: int)
    requires
        0 <= at < issued(args, replies).len(),
        issued(args, replies)[at] is CopyToOutput,
    ensures
        at == 6 + band_total(reported_bands(replies)),
        issued(args, replies)[at] == final_copy(args),
        forall|i: int|
            6 <= i < at ==> #[trigger] issued(args, replies)[i] == (RequestView::SetNoData {
                band: (i - 5) as isize,
                value: args.no_data_value,
            }),
{
    let sent = issued(args, replies);
    let whole = plan(args, reported_bands(replies));
    lemma_run_follows_plan(args, replies);
    assert(sent[at] == whole[at]);
    assert forall|i: int| 6 <= i < at implies #[trigger] sent[i] == (RequestView::SetNoData {
        band: (i - 5) as isize,
        value: args.no_data_value,
    }) by {
        assert(sent[i] == whole[i]);
    }
}

/// The stage of a run without failures after `done` replies.
spec fn smooth_stage(done: int, count: isize) -> Stage {
    if done == 0 {
        Stage::Opening
    } else if done == 1 {
        Stage::FindingCog
    } else if done == 2 {
        Stage::FindingVrt
    } else if done == 3 {
        Stage::ReservingTemp
    } else if done == 4 {
        Stage::Preparing
    } else if done == 5 {
        Stage::Counting
    } else if done <= 5 + band_total(count) {
        Stage::Marking { band: (done - 5) as isize, count }
    } else {
        Stage::Finalizing
    }
}

/// A run without failures is under way until the last reply.
proof fn lemma_smooth_prefix(args: Args, count: isize, done: int)
    requires
        0 <= done <= 6 + band_total(count),
    ensures
        after(args, smooth_replies(count).take(done)) == start(args).at(smooth_stage(done, count)),
    decreases done,
{
    let replies = smooth_replies(count).take(done);
    if done > 0 {
        lemma_smooth_prefix(args, count, done - 1);
        assert(replies.drop_last() =~= smooth_replies(count).take(done - 1));
        assert(replies.last() == smooth_replies(count)[done - 1]);
    }
}

/// A run in which every request succeeds finishes. Where the replies are a
/// success for each request, with `count` as the band count, the conversion
/// ends with the output path after it has issued the whole plan for `count`
/// bands.
pub proof fn lemma_smooth_run_finishes(args: Args, count: isize)
    ensures
        after(args, smooth_replies(count)) == StepView::Finished(args.output_path@),
        issued(args, smooth_replies(count)) == plan(args, count),
{
    let replies = smooth_replies(count);
    let last = 6 + band_total(count) as int;
    lemma_smooth_prefix(args, count, last);
    assert(replies.drop_last() =~= replies.take(last));
    assert(replies.last() == replies[last]);
    assert(reported_bands(replies) == count);
    lemma_run_follows_plan(args, replies);
}

/// A failure ends the conversion at once, at every stage, with the error
/// that the reply carries: an engine error for a failure of the engine, an
/// I/O error for a failure of the filesystem.
pub proof fn lemma_failure_ends(conversion: Conversion, reply: Reply)
    ensures
        reply matches Reply::EngineFailed(why) ==> conversion.next(reply) == StepView::Failed(
            (ErrorKind::Engine, why@),
        ),
        reply matches Reply::IoFailed(why) ==> conversion.next(reply) == StepView::Failed(
            (ErrorKind::Io, why@),
        ),
{
}

/// An end is final. Once a conversion has finished or failed, no further
/// reply changes the result, and nothing further is requested.
pub proof fn lemma_end_is_final(args: Args, replies: Seq<Reply>, more: Seq<Reply>)
    requires
        !(after(args, replies) is Continue),
    ensures
        after(args, replies + more) == after(args, replies),
        issued(args, replies + more) == issued(args, replies),
    decreases more.len(),
{
    if more.len() == 0 {
        assert(replies + more =~= replies);
    } else {
        lemma_end_is_final(args, replies, more.drop_last());
        assert((replies + more).drop_last() =~= replies + more.drop_last());
    }
}

} // verus!
