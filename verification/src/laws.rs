//! What holds over many charges and many writes.
use vstd::prelude::*;

use crate::budget::Ledger;
use crate::error::{Error, ErrorKind};
use crate::tracker::AllocTracker;
use crate::writer::{BudgetWriter, WriterView};

verus! {

/// The sum of all charges, with nothing lost.
pub open spec fn total(charges: Seq<usize>) -> nat
    decreases charges.len(),
{
    if charges.len() == 0 {
        0
    } else {
        total(charges.drop_last()) + charges.last() as nat
    }
}

/// The ledger after `charges`, one after another.
pub open spec fn run(ledger: Ledger, charges: Seq<usize>) -> Ledger
    decreases charges.len(),
{
    if charges.len() == 0 {
        ledger
    } else {
        run(ledger, charges.drop_last()).charged(charges.last())
    }
}

/// Whether each of `charges`, one after another, is granted.
pub open spec fn all_granted(ledger: Ledger, charges: Seq<usize>) -> bool {
    forall|i: int|
        0 <= i < charges.len() ==> run(ledger, charges.take(i)).admits(#[trigger] charges[i])
}

/// A cap of `0` is unlimited: every charge is granted, and none is kept.
pub proof fn law_zero_cap_is_unlimited(used: usize, charges: Seq<usize>)
    ensures
        all_granted(Ledger { cap: 0, used }, charges),
        run(Ledger { cap: 0, used }, charges) == (Ledger { cap: 0, used }),
    decreases charges.len(),
{
    assert forall|i: int| 0 <= i < charges.len() implies run(
        Ledger { cap: 0, used },
        charges.take(i),
    ).admits(#[trigger] charges[i]) by {
        law_zero_cap_is_unlimited(used, charges.take(i));
    }
    if charges.len() > 0 {
        law_zero_cap_is_unlimited(used, charges.drop_last());
    }
}

/// The running total is the sum of everything charged, granted or not, as far as a `usize`
/// can tell it.
pub proof fn law_charges_add_up(cap: usize, charges: Seq<usize>)
    requires
        cap != 0,
    ensures
        run(Ledger::fresh(cap), charges).cap == cap,
        total(charges) <= usize::MAX ==> run(Ledger::fresh(cap), charges).used == total(charges),
        total(charges) > usize::MAX ==> run(Ledger::fresh(cap), charges).used == usize::MAX,
    decreases charges.len(),
{
    if charges.len() > 0 {
        law_charges_add_up(cap, charges.drop_last());
    }
}

/// After any charges, one more is granted exactly where the sum of all, that one
/// counted in, does not exceed the cap.
pub proof fn law_granted_up_to_the_cap(cap: usize, charges: Seq<usize>, bytes: usize)
    requires
        0 < cap < usize::MAX,
    ensures
        run(Ledger::fresh(cap), charges).admits(bytes) <==> total(charges.push(bytes)) <= cap,
{
    law_charges_add_up(cap, charges);
    assert(charges.push(bytes).drop_last() =~= charges);
}

/// Charges are all granted exactly where their sum does not exceed the cap.
pub proof fn law_all_granted_within_the_cap(cap: usize, charges: Seq<usize>)
    requires
        0 < cap < usize::MAX,
    ensures
        all_granted(Ledger::fresh(cap), charges) <==> total(charges) <= cap,
    decreases charges.len(),
{
    if charges.len() > 0 {
        let before = charges.drop_last();
        let last = charges.last();
        law_all_granted_within_the_cap(cap, before);
        assert(before.push(last) =~= charges);
        if total(before) <= cap {
            law_granted_up_to_the_cap(cap, before, last);
            if total(charges) <= cap {
                assert forall|i: int| 0 <= i < charges.len() implies run(
                    Ledger::fresh(cap),
                    charges.take(i),
                ).admits(#[trigger] charges[i]) by {
                    if i < before.len() {
                        assert(before.take(i) =~= charges.take(i));
                    }
                }
            } else {
                assert(!run(Ledger::fresh(cap), charges.take(charges.len() - 1)).admits(
                    charges[charges.len() - 1],
                ));
            }
        } else {
            let i = choose|i: int|
                0 <= i < before.len() && !run(Ledger::fresh(cap), before.take(i)).admits(
                    #[trigger] before[i],
                );
            assert(before.take(i) =~= charges.take(i));
        }
    }
}

/// Once a charge was refused, every further one is, whatever comes in between.
pub proof fn law_refusal_is_final(
    cap: usize,
    before: Seq<usize>,
    refused: usize,
    between: Seq<usize>,
    bytes: usize,
)
    requires
        !run(Ledger::fresh(cap), before).admits(refused),
    ensures
        !run(Ledger::fresh(cap), before.push(refused) + between).admits(bytes),
{
    if cap == 0 {
        law_zero_cap_is_unlimited(0, before);
    } else {
        lemma_total_of_concat(before.push(refused), between);
        assert(before.push(refused).drop_last() =~= before);
        law_charges_add_up(cap, before);
        law_charges_add_up(cap, before.push(refused) + between);
    }
}

/// What fits, a smaller amount fits too.
pub proof fn law_less_fits_too(ledger: Ledger, bytes: usize, less: usize)
    requires
        ledger.admits(bytes),
        less <= bytes,
    ensures
        ledger.admits(less),
{
}

/// A cap of `usize::MAX` grants every charge: no total that a `usize` holds exceeds it.
pub proof fn law_largest_cap_grants_all(charges: Seq<usize>)
    ensures
        all_granted(Ledger::fresh(usize::MAX), charges),
{
    assert forall|i: int| 0 <= i < charges.len() implies run(
        Ledger::fresh(usize::MAX),
        charges.take(i),
    ).admits(#[trigger] charges[i]) by {
        law_charges_add_up(usize::MAX, charges.take(i));
    }
}

/// The order of the charges is of no account: neither for the total they come to nor for
/// whether all of them are granted.
pub proof fn law_order_does_not_matter(cap: usize, charges: Seq<usize>, reordered: Seq<usize>)
    requires
        charges.to_multiset() == reordered.to_multiset(),
    ensures
        run(Ledger::fresh(cap), charges) == run(Ledger::fresh(cap), reordered),
        all_granted(Ledger::fresh(cap), charges) <==> all_granted(Ledger::fresh(cap), reordered),
{
    lemma_total_of_permutation(charges, reordered);
    if cap == 0 {
        law_zero_cap_is_unlimited(0, charges);
        law_zero_cap_is_unlimited(0, reordered);
    } else {
        law_charges_add_up(cap, charges);
        law_charges_add_up(cap, reordered);
        if cap == usize::MAX {
            law_largest_cap_grants_all(charges);
            law_largest_cap_grants_all(reordered);
        } else {
            law_all_granted_within_the_cap(cap, charges);
            law_all_granted_within_the_cap(cap, reordered);
        }
    }
}

/// A charge that finds the counter where a check of the same bytes found it gets the same
/// answer. Where that is `Ok`, the charge leaves a total that is larger by exactly those
/// bytes and within the cap, so what was checked first is accounted once.
///
/// Of a cap of `usize::MAX`, which grants everything, only the first is said.
pub proof fn law_checked_then_charged_counts_once(
    tracker: AllocTracker,
    used: usize,
    bytes: usize,
    checked: Result<(), Error>,
    charged: Result<(), Error>,
)
    requires
        tracker.cap() != 0,
        tracker.read(used),
        tracker.added(bytes, used),
        crate::budget::answers(checked, (Ledger { cap: tracker.cap(), used }).admits(bytes)),
        crate::budget::answers(charged, (Ledger { cap: tracker.cap(), used }).admits(bytes)),
    ensures
        charged is Ok <==> checked is Ok,
        checked is Ok && tracker.cap() < usize::MAX ==> (Ledger {
            cap: tracker.cap(),
            used,
        }).charged(bytes).used == used + bytes <= tracker.cap(),
{
}

/// Where the counter stands when the first `i` of `charges` have been made, of which each
/// found it at the value in `seen`.
pub open spec fn left_at(charges: Seq<usize>, seen: Seq<usize>, i: int) -> usize {
    if i == 0 {
        0
    } else {
        seen[i - 1].saturating_add(charges[i - 1])
    }
}

/// `charges` were made to a new tracker and took effect one after another: each found the
/// counter, at the value in `seen`, as the one before had left it.
///
/// From however many places they come, the steps on one atomic counter have such an order.
pub open spec fn charged_in_turn(
    tracker: AllocTracker,
    charges: Seq<usize>,
    seen: Seq<usize>,
) -> bool {
    &&& tracker.started_at(0)
    &&& seen.len() == charges.len()
    &&& forall|i: int|
        0 <= i < seen.len() ==> #[trigger] tracker.added(charges[i], seen[i])
    &&& forall|i: int| 0 <= i < seen.len() ==> seen[i] == #[trigger] left_at(charges, seen, i)
}

/// Each charge was answered for the value that it found the counter at.
pub open spec fn charges_answered(
    tracker: AllocTracker,
    charges: Seq<usize>,
    seen: Seq<usize>,
    results: Seq<Result<(), Error>>,
) -> bool {
    &&& results.len() == charges.len()
    &&& forall|i: int|
        0 <= i < results.len() ==> crate::budget::answers(
            #[trigger] results[i],
            (Ledger { cap: tracker.cap(), used: seen[i] }).admits(charges[i]),
        )
}

/// Of charges that a tracker takes in turn, one is refused exactly where the sum of all so
/// far, that one counted in, exceeds the cap, and then with the budget error.
pub proof fn law_tracker_refuses_beyond_the_cap(
    tracker: AllocTracker,
    charges: Seq<usize>,
    seen: Seq<usize>,
    results: Seq<Result<(), Error>>,
)
    requires
        0 < tracker.cap() < usize::MAX,
        charged_in_turn(tracker, charges, seen),
        charges_answered(tracker, charges, seen, results),
    ensures
        forall|i: int|
            0 <= i < results.len() ==> crate::budget::answers(
                #[trigger] results[i],
                total(charges.take(i + 1)) <= tracker.cap(),
            ),
{
    assert forall|i: int| 0 <= i < results.len() implies crate::budget::answers(
        #[trigger] results[i],
        total(charges.take(i + 1)) <= tracker.cap(),
    ) by {
        lemma_left_at(tracker, charges, seen, i);
        law_granted_up_to_the_cap(tracker.cap(), charges.take(i), charges[i]);
        assert(charges.take(i).push(charges[i]) =~= charges.take(i + 1));
    }
}

/// A check that finds the counter as the charges in turn have left it is refused exactly
/// where their sum and the checked bytes together exceed the cap.
pub proof fn law_check_refuses_beyond_the_cap(
    tracker: AllocTracker,
    charges: Seq<usize>,
    seen: Seq<usize>,
    used: usize,
    bytes: usize,
    res: Result<(), Error>,
)
    requires
        0 < tracker.cap() < usize::MAX,
        charged_in_turn(tracker, charges, seen),
        used == left_at(charges, seen, charges.len() as int),
        tracker.read(used),
        crate::budget::answers(res, (Ledger { cap: tracker.cap(), used }).admits(bytes)),
    ensures
        crate::budget::answers(res, total(charges) + bytes <= tracker.cap()),
{
    lemma_left_at(tracker, charges, seen, charges.len() as int);
    law_charges_add_up(tracker.cap(), charges);
    assert(charges.take(charges.len() as int) =~= charges);
}

/// How many of `results` are `Ok`.
pub open spec fn granted_count(results: Seq<Result<(), Error>>) -> nat
    decreases results.len(),
{
    if results.len() == 0 {
        0
    } else {
        granted_count(results.drop_last()) + if results.last() is Ok {
            1nat
        } else {
            0
        }
    }
}

/// Of equal charges that a tracker takes in turn, the first `cap / bytes` are granted and no
/// other: none is lost and none counts twice.
pub proof fn law_equal_charges_granted_up_to_the_quotient(
    tracker: AllocTracker,
    bytes: usize,
    charges: Seq<usize>,
    seen: Seq<usize>,
    results: Seq<Result<(), Error>>,
)
    requires
        0 < tracker.cap() < usize::MAX,
        bytes > 0,
        forall|i: int| 0 <= i < charges.len() ==> #[trigger] charges[i] == bytes,
        charged_in_turn(tracker, charges, seen),
        charges_answered(tracker, charges, seen, results),
    ensures
        total(charges) == charges.len() * bytes,
        forall|i: int|
            0 <= i < results.len() ==> crate::budget::answers(
                #[trigger] results[i],
                i < tracker.cap() / bytes,
            ),
        granted_count(results) == if charges.len() < tracker.cap() / bytes {
            charges.len()
        } else {
            (tracker.cap() / bytes) as nat
        },
{
    let quotient = tracker.cap() / bytes;
    law_tracker_refuses_beyond_the_cap(tracker, charges, seen, results);
    lemma_total_of_equal(charges, bytes);
    assert forall|i: int| 0 <= i < results.len() implies crate::budget::answers(
        #[trigger] results[i],
        i < quotient,
    ) by {
        lemma_total_of_equal(charges.take(i + 1), bytes);
        lemma_quotient(tracker.cap() as int, bytes as int, i + 1);
    }
    lemma_granted_count(results, quotient as nat);
}

/// A check that finds the counter as equal charges in turn have left it is refused exactly
/// where all of them, granted or not, and the checked bytes together exceed the cap.
pub proof fn law_check_after_equal_charges(
    tracker: AllocTracker,
    bytes: usize,
    charges: Seq<usize>,
    seen: Seq<usize>,
    used: usize,
    checked: usize,
    res: Result<(), Error>,
)
    requires
        0 < tracker.cap() < usize::MAX,
        forall|i: int| 0 <= i < charges.len() ==> #[trigger] charges[i] == bytes,
        charged_in_turn(tracker, charges, seen),
        used == left_at(charges, seen, charges.len() as int),
        tracker.read(used),
        crate::budget::answers(res, (Ledger { cap: tracker.cap(), used }).admits(checked)),
    ensures
        crate::budget::answers(res, charges.len() * bytes + checked <= tracker.cap()),
{
    law_check_refuses_beyond_the_cap(tracker, charges, seen, used, checked, res);
    lemma_total_of_equal(charges, bytes);
}

/// A tracker with a cap of `0` refuses nothing.
pub proof fn law_unlimited_tracker_refuses_nothing(
    tracker: AllocTracker,
    bytes: usize,
    charged: Result<(), Error>,
    checked: Result<(), Error>,
)
    requires
        tracker.cap() == 0,
        call_ensures(AllocTracker::charge, (&tracker, bytes), charged),
        call_ensures(AllocTracker::check, (&tracker, bytes), checked),
    ensures
        charged is Ok,
        checked is Ok,
{
}

/// A single step of more bytes than the whole budget is refused by charge and check alike,
/// wherever the counter stands.
pub proof fn law_oversized_step_is_refused(
    tracker: AllocTracker,
    bytes: usize,
    charged: Result<(), Error>,
    checked: Result<(), Error>,
)
    requires
        0 < tracker.cap() < bytes,
        call_ensures(AllocTracker::charge, (&tracker, bytes), charged),
        call_ensures(AllocTracker::check, (&tracker, bytes), checked),
    ensures
        crate::budget::answers(charged, false),
        crate::budget::answers(checked, false),
{
}

/// The size that a check is asked for is the UTF-8 length of the text to come, or
/// `usize::MAX` where that cannot hold it.
pub proof fn law_check_is_asked_for_the_utf8_length(text: Seq<char>)
    ensures
        vstd::utf8::encode_utf8(text).len() <= usize::MAX ==> crate::writer::text_size(text)
            == vstd::utf8::encode_utf8(text).len(),
        vstd::utf8::encode_utf8(text).len() > usize::MAX ==> crate::writer::text_size(text)
            == usize::MAX,
{
}

/// The size asked for grows by exactly the UTF-8 length of what is written.
pub proof fn law_sizes_add_up(text: Seq<char>, piece: Seq<char>)
    requires
        vstd::utf8::encode_utf8(text + piece).len() <= usize::MAX,
    ensures
        crate::writer::text_size(text + piece) == crate::writer::text_size(text)
            + crate::writer::text_size(piece),
        crate::writer::text_size(Seq::empty()) == 0,
{
    crate::writer::lemma_encode_concat(text, piece);
}

/// A write that stays within a limit goes through: where a check grants every size up to
/// `limit`, and the text with the piece has at most that many bytes in UTF-8, whatever the
/// check answers to the size it is asked for is `Ok`, and the piece is taken.
pub proof fn law_write_within_the_limit_is_granted<F: Fn(usize) -> Result<(), Error>>(
    check: F,
    limit: usize,
    writer: WriterView,
    piece: Seq<char>,
    verdict: Result<(), Error>,
)
    requires
        forall|size: usize, res: Result<(), Error>|
            size <= limit && #[trigger] call_ensures(check, (size,), res) ==> res is Ok,
        vstd::utf8::encode_utf8(writer.text + piece).len() <= limit,
        call_ensures(check, (crate::writer::text_size(writer.text + piece),), verdict),
    ensures
        verdict is Ok,
        writer.after(piece, verdict).text == writer.text + piece,
        writer.after(piece, verdict).failure == writer.failure,
{
}

/// A write beyond a limit is stopped: where a check refuses every size above `limit`, and
/// the text with the piece has more bytes than that in UTF-8, nothing of the piece is taken
/// and the check's own error is kept.
pub proof fn law_write_beyond_the_limit_is_stopped<F: Fn(usize) -> Result<(), Error>>(
    check: F,
    limit: usize,
    writer: WriterView,
    piece: Seq<char>,
    verdict: Result<(), Error>,
)
    requires
        limit < usize::MAX,
        forall|size: usize, res: Result<(), Error>|
            size > limit && #[trigger] call_ensures(check, (size,), res) ==> res is Err,
        vstd::utf8::encode_utf8(writer.text + piece).len() > limit,
        call_ensures(check, (crate::writer::text_size(writer.text + piece),), verdict),
    ensures
        verdict is Err,
        writer.after(piece, verdict).text == writer.text,
        writer.after(piece, verdict).failure == Some(verdict->Err_0),
{
}

/// A check that asks a tracker grants no more than the cap, so neither does a text exceed it
/// that a writer with such a check has taken.
pub proof fn law_writer_stays_within_the_cap<F: Fn(usize) -> Result<(), Error>>(
    tracker: AllocTracker,
    check: F,
    text: Seq<char>,
)
    requires
        0 < tracker.cap() < usize::MAX,
        forall|size: usize, res: Result<(), Error>| #[trigger]
            call_ensures(check, (size,), res) ==> call_ensures(
                AllocTracker::check,
                (&tracker, size),
                res,
            ),
        crate::writer::approved(check, text),
    ensures
        crate::writer::byte_len(text) <= tracker.cap(),
        vstd::utf8::encode_utf8(text).len() <= tracker.cap(),
{
}

/// A writer with such a check, of a tracker whose counter is found at `used`, takes a piece
/// exactly where the counter and the text with that piece together do not exceed the cap.
pub proof fn law_writer_is_held_to_what_is_left(
    tracker: AllocTracker,
    used: usize,
    text: Seq<char>,
    piece: Seq<char>,
    verdict: Result<(), Error>,
)
    requires
        0 < tracker.cap() < usize::MAX,
        crate::budget::answers(
            verdict,
            (Ledger { cap: tracker.cap(), used }).admits(crate::writer::text_size(text + piece)),
        ),
    ensures
        verdict is Ok <==> used + vstd::utf8::encode_utf8(text + piece).len() <= tracker.cap(),
{
}

/// A new writer holds no text and no error; nor does it ask for leave.
pub proof fn law_new_writer_is_empty<'a, F: Fn(usize) -> Result<(), Error>>(
    check: &'a F,
    cap: usize,
    writer: BudgetWriter<'a, F>,
    roomy: BudgetWriter<'a, F>,
)
    requires
        call_ensures(BudgetWriter::<'a, F>::new, (check,), writer),
        call_ensures(BudgetWriter::<'a, F>::with_capacity, (cap, check), roomy),
    ensures
        writer@.text.len() == 0 && writer@.failure is None,
        roomy@.text.len() == 0 && roomy@.failure is None,
        writer.size_check() == *check && roomy.size_check() == *check,
{
}

/// What a writer ends in: its text on success, else the error that stopped it, else the
/// words for a failed format. The text is the same whichever way it is asked for.
pub proof fn law_finish_and_into_string_agree<'a, F: Fn(usize) -> Result<(), Error>>(
    writer: BudgetWriter<'a, F>,
    text: String,
    rv: std::fmt::Result,
    res: Result<String, Error>,
)
    requires
        call_ensures(BudgetWriter::<'a, F>::into_string, (writer,), text),
        call_ensures(BudgetWriter::<'a, F>::finish, (writer, rv), res),
    ensures
        res is Ok <==> rv is Ok,
        res matches Ok(finished) ==> finished@ == text@,
        res matches Err(error) ==> match writer@.failure {
            Some(stopped) => error == stopped,
            None => error@.kind == ErrorKind::InvalidOperation && error@.detail
                == "failed to format value"@,
        },
{
}

/// An error gives back what it was made of.
pub proof fn law_error_keeps_kind_and_detail(
    kind: ErrorKind,
    detail: &str,
    error: Error,
    its_kind: ErrorKind,
    its_detail: &str,
)
    requires
        call_ensures(Error::new, (kind, detail), error),
        call_ensures(Error::kind, (&error,), its_kind),
        call_ensures(Error::detail, (&error,), its_detail),
    ensures
        its_kind == kind,
        its_detail@ == detail@,
{
}

/// An answer is `Ok` exactly where it is granted, and the budget error elsewhere.
pub proof fn law_answer_tells_whether_granted(res: Result<(), Error>, granted: bool)
    requires
        crate::budget::answers(res, granted),
    ensures
        res is Ok <==> granted,
        res matches Err(error) ==> error@.kind == ErrorKind::InvalidOperation && error@.detail
            == "template allocation budget exceeded"@,
{
}

/// A ledger grants what its total and its cap leave room for, and a charge, granted or not,
/// moves the total by its bytes and the cap by nothing.
pub proof fn law_ledger_takes_every_charge(ledger: Ledger, bytes: usize)
    requires
        0 < ledger.cap < usize::MAX,
    ensures
        ledger.admits(bytes) <==> ledger.used + bytes <= ledger.cap,
        ledger.charged(bytes).cap == ledger.cap,
        ledger.used + bytes <= usize::MAX ==> ledger.charged(bytes).used == ledger.used + bytes,
        ledger.used + bytes > usize::MAX ==> ledger.charged(bytes).used == usize::MAX,
        Ledger::fresh(ledger.cap).cap == ledger.cap && Ledger::fresh(ledger.cap).used == 0,
{
}

/// The writer after writes of `pieces`, one after another, that the check answered with
/// `verdicts`.
pub open spec fn written(
    writer: WriterView,
    pieces: Seq<Seq<char>>,
    verdicts: Seq<Result<(), Error>>,
) -> WriterView
    decreases pieces.len(),
{
    if pieces.len() == 0 {
        writer
    } else {
        written(writer, pieces.drop_last(), verdicts.drop_last()).after(
            pieces.last(),
            verdicts.last(),
        )
    }
}

/// What has been written stays: the text only grows at its end.
pub proof fn law_text_only_grows(
    writer: WriterView,
    pieces: Seq<Seq<char>>,
    verdicts: Seq<Result<(), Error>>,
)
    requires
        pieces.len() == verdicts.len(),
    ensures
        writer.text.is_prefix_of(written(writer, pieces, verdicts).text),
    decreases pieces.len(),
{
    if pieces.len() > 0 {
        law_text_only_grows(writer, pieces.drop_last(), verdicts.drop_last());
    }
}

/// Where every write is granted, the text is all the pieces in a row.
pub proof fn law_granted_writes_concatenate(
    writer: WriterView,
    pieces: Seq<Seq<char>>,
    verdicts: Seq<Result<(), Error>>,
)
    requires
        pieces.len() == verdicts.len(),
        forall|i: int| 0 <= i < verdicts.len() ==> #[trigger] verdicts[i] is Ok,
    ensures
        written(writer, pieces, verdicts) == (WriterView {
            text: writer.text + pieces.flatten(),
            failure: writer.failure,
        }),
    decreases pieces.len(),
{
    if pieces.len() > 0 {
        let before = pieces.drop_last();
        law_granted_writes_concatenate(writer, before, verdicts.drop_last());
        before.lemma_flatten_push(pieces.last());
        assert(before.push(pieces.last()) =~= pieces);
        assert(writer.text + before.flatten() + pieces.last() =~= writer.text
            + pieces.flatten());
    }
}

/// The pieces whose write is granted, in order.
pub open spec fn granted_pieces(
    pieces: Seq<Seq<char>>,
    verdicts: Seq<Result<(), Error>>,
) -> Seq<Seq<char>>
    decreases pieces.len(),
{
    if pieces.len() == 0 {
        Seq::empty()
    } else {
        let before = granted_pieces(pieces.drop_last(), verdicts.drop_last());
        if verdicts.last() is Ok {
            before.push(pieces.last())
        } else {
            before
        }
    }
}

/// Whatever is refused in between, the text is the granted pieces in a row.
pub proof fn law_text_is_the_granted_pieces(
    writer: WriterView,
    pieces: Seq<Seq<char>>,
    verdicts: Seq<Result<(), Error>>,
)
    requires
        pieces.len() == verdicts.len(),
    ensures
        written(writer, pieces, verdicts).text == writer.text + granted_pieces(
            pieces,
            verdicts,
        ).flatten(),
    decreases pieces.len(),
{
    if pieces.len() > 0 {
        let before = granted_pieces(pieces.drop_last(), verdicts.drop_last());
        law_text_is_the_granted_pieces(writer, pieces.drop_last(), verdicts.drop_last());
        before.lemma_flatten_push(pieces.last());
        assert(writer.text + before.flatten() + pieces.last() =~= writer.text + (before.flatten()
            + pieces.last()));
    }
}

/// The error that a writer ends up with is that of the last write that was stopped.
pub proof fn law_last_refusal_is_kept(
    writer: WriterView,
    pieces: Seq<Seq<char>>,
    verdicts: Seq<Result<(), Error>>,
    last: int,
)
    requires
        pieces.len() == verdicts.len(),
        0 <= last < verdicts.len(),
        verdicts[last] is Err,
        forall|i: int| last < i < verdicts.len() ==> #[trigger] verdicts[i] is Ok,
    ensures
        written(writer, pieces, verdicts).failure == Some(verdicts[last]->Err_0),
    decreases pieces.len(),
{
    if last < verdicts.len() - 1 {
        law_last_refusal_is_kept(writer, pieces.drop_last(), verdicts.drop_last(), last);
    }
}

/// A counter that takes each charge in turn stands where a ledger does after the same
/// charges.
proof fn lemma_left_at(tracker: AllocTracker, charges: Seq<usize>, seen: Seq<usize>, i: int)
    requires
        tracker.cap() != 0,
        charged_in_turn(tracker, charges, seen),
        0 <= i <= charges.len(),
    ensures
        run(Ledger::fresh(tracker.cap()), charges.take(i)) == (Ledger {
            cap: tracker.cap(),
            used: left_at(charges, seen, i),
        }),
    decreases i,
{
    if i > 0 {
        lemma_left_at(tracker, charges, seen, i - 1);
        assert(charges.take(i).drop_last() =~= charges.take(i - 1));
    }
}

/// The total of equal charges is their number times their size.
proof fn lemma_total_of_equal(charges: Seq<usize>, bytes: usize)
    requires
        forall|i: int| 0 <= i < charges.len() ==> #[trigger] charges[i] == bytes,
    ensures
        total(charges) == charges.len() * bytes,
    decreases charges.len(),
{
    if charges.len() > 0 {
        let n = charges.len();
        lemma_total_of_equal(charges.drop_last(), bytes);
        assert(n * bytes == (n - 1) * bytes + bytes) by (nonlinear_arith);
    } else {
        assert(charges.len() * bytes == 0) by (nonlinear_arith)
            requires
                charges.len() == 0,
        ;
    }
}

/// A multiple of `bytes` stays within `cap` up to the quotient of the two.
proof fn lemma_quotient(cap: int, bytes: int, n: int)
    by (nonlinear_arith)
    requires
        cap >= 0,
        bytes > 0,
    ensures
        n * bytes <= cap <==> n <= cap / bytes,
{
}

/// Where exactly the first `limit` results are `Ok`, there are that many, or all there are.
proof fn lemma_granted_count(results: Seq<Result<(), Error>>, limit: nat)
    requires
        forall|i: int| 0 <= i < results.len() ==> (#[trigger] results[i] is Ok <==> i < limit),
    ensures
        granted_count(results) == if results.len() < limit {
            results.len()
        } else {
            limit
        },
    decreases results.len(),
{
    if results.len() > 0 {
        lemma_granted_count(results.drop_last(), limit);
    }
}

/// The total of two runs of charges is the sum of their totals.
proof fn lemma_total_of_concat(a: Seq<usize>, b: Seq<usize>)
    ensures
        total(a + b) == total(a) + total(b),
    decreases b.len(),
{
    if b.len() > 0 {
        lemma_total_of_concat(a, b.drop_last());
        assert((a + b).drop_last() =~= a + b.drop_last());
    }
}

/// Charges in another order have the same total.
proof fn lemma_total_of_permutation(a: Seq<usize>, b: Seq<usize>)
    requires
        a.to_multiset() == b.to_multiset(),
    ensures
        total(a) == total(b),
    decreases a.len(),
{
    broadcast use vstd::seq_lib::group_to_multiset_ensures;

    assert(a.len() == a.to_multiset().len() == b.to_multiset().len() == b.len());
    if a.len() > 0 {
        let last = a.last();
        assert(b.to_multiset().count(last) > 0);
        let i = b.index_of(last);
        let rest = b.remove(i);
        assert(a.drop_last() =~= a.remove(a.len() - 1));
        lemma_total_of_permutation(a.drop_last(), rest);
        assert(b =~= b.take(i).push(last) + b.skip(i + 1));
        lemma_total_of_concat(b.take(i).push(last), b.skip(i + 1));
        lemma_total_of_concat(b.take(i), b.skip(i + 1));
        assert(b.take(i).push(last).drop_last() =~= b.take(i));
    }
}

} // verus!
