use vstd::prelude::*;
use crate::mapper::{comment_of, host_long, object_of, CommentObject, SpannableObject};
use crate::model::{kind_of, PostCommentParsed, SpanKind, Spannable};
use crate::names::{spannable_class_name_of, tag_of};
use crate::session::{
    next_of, run, start, step_at, step_count, HostEvent, HostStep, Next, Progress,
};

verus! {

/// The composite built for a comment has one spannable object for each of
/// its spannables, at the same index, of the subtype that the spannable's
/// (nested) tag selects and carrying its payload; and both texts equal the
/// comment's, character for character.
pub proof fn comment_object_matches(r: CommentObject, c: PostCommentParsed)
    requires
        comment_of(r, c),
    ensures
        r.spannables@.len() == c.spannables@.len(),
        r.comment_text_raw@ == c.original_comment_text@,
        r.comment_text_parsed@ == c.parsed_comment_text@,
        forall|i: int|
            0 <= i < r.spannables@.len() ==> {
                &&& (#[trigger] r.spannables@[i]).kind == kind_of(c.spannables@[i].spannable_data)
                &&& r.spannables@[i]@ == object_of(c.spannables@[i].spannable_data)
            },
{
    let views = r.spannables@.map_values(|o: SpannableObject| o@);
    let objects = c.spannables@.map_values(
        |s: Spannable| object_of(s.spannable_data),
    );
    assert(views.len() == objects.len());
    assert forall|i: int| 0 <= i < r.spannables@.len() implies {
        &&& (#[trigger] r.spannables@[i]).kind == kind_of(c.spannables@[i].spannable_data)
        &&& r.spannables@[i]@ == object_of(c.spannables@[i].spannable_data)
    } by {
        assert(views[i] == objects[i]);
    }
}

/// A post or thread number reaches the host with the same 64 bits: read back
/// as unsigned it is the number itself, and any number up to `i64::MAX`
/// keeps its value.
pub proof fn host_long_keeps_bits(n: u64)
    ensures
        host_long(n) as u64 == n,
        n <= i64::MAX ==> host_long(n) == n,
{
    assert((n as i64) as u64 == n) by (bit_vector);
    assert(n <= 0x7fff_ffff_ffff_ffffu64 ==> (n as i64) == n) by (bit_vector);
}

/// Distinct leaf tags select distinct host subtypes.
pub proof fn class_names_distinct(a: SpanKind, b: SpanKind)
    requires
        a != b,
    ensures
        spannable_class_name_of(a) != spannable_class_name_of(b),
{
    reveal_strlit("Quote");
    reveal_strlit("DeadQuote");
    reveal_strlit("UrlLink");
    reveal_strlit("BoardLink");
    reveal_strlit("SearchLink");
    reveal_strlit("ThreadLink");
    reveal_strlit("Spoiler");
    reveal_strlit("GreenText");
    let p = crate::names::element_class_name_of() + "$"@;
    if spannable_class_name_of(a) == spannable_class_name_of(b) {
        assert(tag_of(a) =~= spannable_class_name_of(a).subrange(p.len() as int, spannable_class_name_of(a).len() as int));
        assert(tag_of(b) =~= spannable_class_name_of(b).subrange(p.len() as int, spannable_class_name_of(b).len() as int));
        assert(tag_of(a).len() == tag_of(b).len());
        assert(tag_of(a)[0] == tag_of(b)[0]);
    }
}

/// Once a mapping has failed, no later report changes it: it stays aborted
/// with the same error, and never finishes.
pub proof fn failure_is_final(n: nat, p: Progress, evs: Seq<HostEvent>)
    requires
        p.failure is Some,
    ensures
        run(n, p, evs) == p,
        next_of(n, run(n, p, evs)) == Next::Abort(p.failure.unwrap()),
    decreases evs.len(),
{
    if evs.len() > 0 {
        failure_is_final(n, p, evs.drop_last());
    }
}

/// While every report is a success, a mapping performs its operations in
/// order: the composite, the texts, the array, each spannable, the
/// attachment; after all of them it finishes.
pub proof fn successes_walk_the_steps(n: nat, k: nat)
    requires
        k <= step_count(n),
    ensures
        run(n, start(), Seq::new(k, |j: int| HostEvent::Succeeded)) == (Progress {
            done: k,
            failure: None,
        }),
        k < step_count(n) ==> next_of(n, run(n, start(), Seq::new(k, |j: int| HostEvent::Succeeded)))
            == Next::Perform(step_at(n, k as int)),
        k == step_count(n) ==> next_of(n, run(n, start(), Seq::new(k, |j: int| HostEvent::Succeeded)))
            == Next::Finish,
    decreases k,
{
    if k > 0 {
        let evs = Seq::new(k, |j: int| HostEvent::Succeeded);
        assert(evs.drop_last() =~= Seq::new((k - 1) as nat, |j: int| HostEvent::Succeeded));
        successes_walk_the_steps(n, (k - 1) as nat);
    }
}

proof fn unfailed_run(n: nat, evs: Seq<HostEvent>)
    requires
        run(n, start(), evs).failure is None,
    ensures
        run(n, start(), evs).done == if evs.len() < step_count(n) { evs.len() } else { step_count(n) },
        forall|j: int| 0 <= j < run(n, start(), evs).done ==> evs[j] == HostEvent::Succeeded,
    decreases evs.len(),
{
    if evs.len() > 0 {
        let prev = evs.drop_last();
        if run(n, start(), prev).failure is Some {
            failure_is_final(n, run(n, start(), prev), seq![evs.last()]);
            assert(seq![evs.last()].drop_last() =~= Seq::<HostEvent>::empty());
        } else {
            unfailed_run(n, prev);
            assert forall|j: int| 0 <= j < run(n, start(), evs).done implies evs[j]
                == HostEvent::Succeeded by {
                if j < prev.len() {
                    assert(prev[j] == evs[j]);
                }
            }
        }
    }
}

/// A mapping finishes only when each of its operations was reported a
/// success, in order: a failure at any of them, the construction of any one
/// spannable's subtype included, leaves no output.
pub proof fn finish_needs_every_success(n: nat, evs: Seq<HostEvent>)
    requires
        next_of(n, run(n, start(), evs)) == Next::Finish,
    ensures
        step_count(n) <= evs.len(),
        forall|j: int| 0 <= j < step_count(n) ==> evs[j] == HostEvent::Succeeded,
{
    unfailed_run(n, evs);
}

/// The array has one slot for each spannable, and the object for the
/// spannable at index `i` is built exactly once, into slot `i`.
pub proof fn each_slot_built_once(n: nat, i: nat)
    requires
        i < n,
        n <= usize::MAX,
    ensures
        step_at(n, 3) == HostStep::NewArray(n as usize),
        step_at(n, i + 4 as int) == HostStep::BuildElement(i as usize),
        forall|j: int|
            0 <= j < step_count(n) && j != i + 4 ==> step_at(n, j) != HostStep::BuildElement(
                i as usize,
            ),
{
}

} // verus!
