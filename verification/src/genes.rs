//! What measured Gene transfers recommend.

use crate::protocol::{GeneExtractedPayload, GeneTransferOutcome};
use crate::state::{EventPayload, RecordedEvent};
use crate::text;
use vstd::prelude::*;

verus! {

/// The Gene that an event extracts.
pub open spec fn gene_of(recorded: RecordedEvent) -> Option<GeneExtractedPayload> {
    match recorded.payload {
        EventPayload::GeneExtracted(gene) => Some(gene),
        _ => None,
    }
}

/// Whether an event records a transfer of a Gene that helped.
pub open spec fn helped(recorded: RecordedEvent, gene_id: Seq<char>) -> bool {
    match recorded.payload {
        EventPayload::GeneTransferRecorded(transfer) => transfer.gene_id@ == gene_id
            && transfer.outcome == GeneTransferOutcome::Positive,
        _ => false,
    }
}

/// The effect that a recorded transfer measured.
pub open spec fn effect_of(recorded: RecordedEvent) -> int {
    match recorded.payload {
        EventPayload::GeneTransferRecorded(transfer) => transfer.estimate_bps as int,
        _ => 0,
    }
}

/// How many transfers of a Gene helped.
pub open spec fn positive_count(history: Seq<RecordedEvent>, gene_id: Seq<char>) -> nat
    decreases history.len(),
{
    if history.len() == 0 {
        0
    } else {
        positive_count(history.drop_last(), gene_id) + if helped(history.last(), gene_id) {
            1nat
        } else {
            0nat
        }
    }
}

/// The effects of all transfers of a Gene that helped, added up.
pub open spec fn positive_total(history: Seq<RecordedEvent>, gene_id: Seq<char>) -> int
    decreases history.len(),
{
    if history.len() == 0 {
        0
    } else {
        positive_total(history.drop_last(), gene_id) + if helped(history.last(), gene_id) {
            effect_of(history.last())
        } else {
            0
        }
    }
}

/// Whether the mean over `count_a` values that add up to `total_a` is higher than the one over
/// `count_b` values that add up to `total_b`.
pub open spec fn higher_mean(total_a: int, count_a: int, total_b: int, count_b: int) -> bool {
    total_a * count_b > total_b * count_a
}

/// Whether the transfers that helped had a higher mean effect for one Gene than for another.
pub open spec fn helps_more(history: Seq<RecordedEvent>, gene_a: Seq<char>, gene_b: Seq<char>) -> bool {
    higher_mean(
        positive_total(history, gene_a),
        positive_count(history, gene_a) as int,
        positive_total(history, gene_b),
        positive_count(history, gene_b) as int,
    )
}

/// Whether the Gene at `at` starts from an operation and has helped at least once.
pub open spec fn eligible(history: Seq<RecordedEvent>, operation: Seq<char>, at: int) -> bool {
    &&& 0 <= at < history.len()
    &&& gene_of(history[at]) matches Some(gene) && gene.operation_before@ == operation
        && positive_count(history, gene.gene_id@) > 0
}

/// Whether the Gene at `a` is preferred to the one at `b`: for its mean effect, where that is
/// the same for the lesser identity, then for standing earlier.
pub open spec fn preferred(history: Seq<RecordedEvent>, a: int, b: int) -> bool {
    let gene_a = gene_of(history[a])->0.gene_id@;
    let gene_b = gene_of(history[b])->0.gene_id@;
    helps_more(history, gene_a, gene_b) || (!helps_more(history, gene_b, gene_a) && (text::precedes(gene_a, gene_b) || (gene_a == gene_b
        && a < b)))
}

/// Whether the Gene at `at` is preferred to every other eligible one.
pub open spec fn is_best(history: Seq<RecordedEvent>, operation: Seq<char>, at: int) -> bool {
    &&& eligible(history, operation, at)
    &&& forall|other: int| #[trigger]
        eligible(history, operation, other) && other != at ==> preferred(history, at, other)
}

/// There is at most one best Gene.
pub proof fn best_is_unique(history: Seq<RecordedEvent>, operation: Seq<char>, a: int, b: int)
    requires
        is_best(history, operation, a),
        is_best(history, operation, b),
    ensures
        a == b,
{
    if a != b {
        assert(preferred(history, a, b) && preferred(history, b, a));
        let gene_a = gene_of(history[a])->0.gene_id@;
        let gene_b = gene_of(history[b])->0.gene_id@;
        text::precedes_irreflexive(gene_a);
        if text::precedes(gene_a, gene_b) && text::precedes(gene_b, gene_a) {
            text::precedes_transitive(gene_a, gene_b, gene_a);
        }
    }
}

/// Bounds on what the transfers of a Gene add up to.
proof fn totals_are_bounded(history: Seq<RecordedEvent>, gene_id: Seq<char>)
    ensures
        positive_count(history, gene_id) <= history.len(),
        -0x8000_0000_0000_0000 * history.len() <= positive_total(history, gene_id)
            <= 0x8000_0000_0000_0000 * history.len(),
    decreases history.len(),
{
    if history.len() > 0 {
        totals_are_bounded(history.drop_last(), gene_id);
    }
}

/// A total and how many values add up to it, with the whole part and the rest of their mean.
struct Mean {
    total: i128,
    count: u128,
    whole: i128,
    rest: u128,
}

impl Mean {
    /// The parts belong together.
    spec fn wf(self) -> bool {
        &&& 0 < self.count <= 0xffff_ffff_ffff_ffff
        &&& self.rest < self.count
        &&& self.total == self.whole * self.count + self.rest
    }

    /// Takes a mean apart.
    fn new(total: i128, count: u64) -> (result: Self)
        requires
            count > 0,
            total > i128::MIN,
        ensures
            result.wf(),
            result.total == total,
            result.count == count,
    {
        let divisor: i128 = count as i128;
        if total >= 0 {
            let whole: i128 = total / divisor;
            let rest: i128 = total % divisor;
            proof {
                vstd::arithmetic::div_mod::lemma_fundamental_div_mod(total as int, divisor as int);
                assert(divisor * whole == whole * divisor) by (nonlinear_arith);
            }
            return Mean { total, count: count as u128, whole, rest: rest as u128 };
        }
        let opposite: i128 = -total;
        let whole: i128 = opposite / divisor;
        let rest: i128 = opposite % divisor;
        proof {
            vstd::arithmetic::div_mod::lemma_fundamental_div_mod(opposite as int, divisor as int);
            assert((-whole) * divisor == -(divisor * whole)) by (nonlinear_arith);
            assert((-whole - 1) * divisor == -(divisor * whole) - divisor) by (nonlinear_arith);
            assert(0 <= whole <= opposite) by (nonlinear_arith)
                requires
                    divisor * whole + rest == opposite,
                    0 <= rest,
                    divisor > 0,
                    opposite > 0,
                    rest < divisor,
            ;
        }
        if rest == 0 {
            Mean { total, count: count as u128, whole: -whole, rest: 0 }
        } else {
            Mean {
                total,
                count: count as u128,
                whole: -whole - 1,
                rest: (divisor - rest) as u128,
            }
        }
    }

    /// Tells whether a mean is higher than another: for its whole part, else for its rest.
    fn is_higher(&self, other: &Self) -> (result: bool)
        requires
            self.wf(),
            other.wf(),
        ensures
            result == higher_mean(
                self.total as int,
                self.count as int,
                other.total as int,
                other.count as int,
            ),
    {
        proof {
            mean_by_parts(
                self.whole as int,
                self.rest as int,
                self.count as int,
                other.whole as int,
                other.rest as int,
                other.count as int,
            );
            mean_by_parts(
                other.whole as int,
                other.rest as int,
                other.count as int,
                self.whole as int,
                self.rest as int,
                self.count as int,
            );
            rest_fits(self.rest as int, other.count as int);
            rest_fits(other.rest as int, self.count as int);
        }
        if self.whole != other.whole {
            return self.whole > other.whole;
        }
        self.rest * other.count > other.rest * self.count
    }
}

/// A rest times a count takes no more than twice the width of a count.
proof fn rest_fits(rest: int, count: int)
    requires
        0 <= rest < 0xffff_ffff_ffff_ffff,
        0 <= count <= 0xffff_ffff_ffff_ffff,
    ensures
        0 <= rest * count <= u128::MAX,
{
    assert(0 <= rest * count <= 0xffff_ffff_ffff_ffff * 0xffff_ffff_ffff_ffff) by (nonlinear_arith)
        requires
            0 <= rest < 0xffff_ffff_ffff_ffff,
            0 <= count <= 0xffff_ffff_ffff_ffff,
    ;
}

/// Means compare by their whole parts, and where these are the same by their rests.
proof fn mean_by_parts(whole_a: int, rest_a: int, count_a: int, whole_b: int, rest_b: int, count_b: int)
    requires
        0 <= rest_a < count_a,
        0 <= rest_b < count_b,
    ensures
        whole_a > whole_b ==> higher_mean(
            whole_a * count_a + rest_a,
            count_a,
            whole_b * count_b + rest_b,
            count_b,
        ) && !higher_mean(
            whole_b * count_b + rest_b,
            count_b,
            whole_a * count_a + rest_a,
            count_a,
        ),
        whole_a == whole_b ==> higher_mean(
            whole_a * count_a + rest_a,
            count_a,
            whole_b * count_b + rest_b,
            count_b,
        ) == (rest_a * count_b > rest_b * count_a),
{
    let product = count_a * count_b;
    assert((whole_a * count_a + rest_a) * count_b == whole_a * product + rest_a * count_b)
        by (nonlinear_arith)
        requires
            product == count_a * count_b,
    ;
    assert((whole_b * count_b + rest_b) * count_a == whole_b * product + rest_b * count_a)
        by (nonlinear_arith)
        requires
            product == count_a * count_b,
    ;
    assert(0 <= rest_a * count_b) by (nonlinear_arith)
        requires
            0 <= rest_a,
            0 < count_b,
    ;
    assert(rest_b * count_a < product) by (nonlinear_arith)
        requires
            0 <= rest_b < count_b,
            0 < count_a,
            product == count_a * count_b,
    ;
    if whole_a > whole_b {
        assert(whole_a * product >= whole_b * product + product) by (nonlinear_arith)
            requires
                whole_a >= whole_b + 1,
                product >= 0,
        ;
    }
}

/// A mean that is higher than one that is no lower than a third is higher than the third; one
/// that is no lower than a higher one is higher too.
proof fn means_are_ordered(
    total_a: int,
    count_a: int,
    total_b: int,
    count_b: int,
    total_c: int,
    count_c: int,
)
    requires
        count_a > 0,
        count_b > 0,
        count_c > 0,
        !higher_mean(total_b, count_b, total_a, count_a),
        !higher_mean(total_c, count_c, total_b, count_b),
    ensures
        !higher_mean(total_c, count_c, total_a, count_a),
        higher_mean(total_a, count_a, total_b, count_b) || higher_mean(
            total_b,
            count_b,
            total_c,
            count_c,
        ) ==> higher_mean(total_a, count_a, total_c, count_c),
{
    let ab = total_a * count_b;
    let ba = total_b * count_a;
    let bc = total_b * count_c;
    let cb = total_c * count_b;
    assert(ab * count_c >= ba * count_c) by (nonlinear_arith)
        requires
            ab >= ba,
            count_c > 0,
    ;
    assert(bc * count_a >= cb * count_a) by (nonlinear_arith)
        requires
            bc >= cb,
            count_a > 0,
    ;
    if ab > ba {
        assert(ab * count_c > ba * count_c) by (nonlinear_arith)
            requires
                ab > ba,
                count_c > 0,
        ;
    }
    if bc > cb {
        assert(bc * count_a > cb * count_a) by (nonlinear_arith)
            requires
                bc > cb,
                count_a > 0,
        ;
    }
    assert(ab * count_c == count_b * (total_a * count_c)) by (nonlinear_arith)
        requires
            ab == total_a * count_b,
    ;
    assert(ba * count_c == bc * count_a) by (nonlinear_arith)
        requires
            ba == total_b * count_a,
            bc == total_b * count_c,
    ;
    assert(cb * count_a == count_b * (total_c * count_a)) by (nonlinear_arith)
        requires
            cb == total_c * count_b,
    ;
    let ac = total_a * count_c;
    let ca = total_c * count_a;
    assert(ac >= ca) by (nonlinear_arith)
        requires
            count_b * ac >= count_b * ca,
            count_b > 0,
    ;
    if ab > ba || bc > cb {
        assert(ac > ca) by (nonlinear_arith)
            requires
                count_b * ac > count_b * ca,
                count_b > 0,
        ;
    }
}

/// Whether a mean is the mean effect of the transfers of a Gene that helped.
spec fn is_mean(mean: Mean, history: Seq<RecordedEvent>, gene_id: Seq<char>) -> bool {
    &&& mean.wf()
    &&& mean.total == positive_total(history, gene_id)
    &&& mean.count == positive_count(history, gene_id)
}

/// Computes the mean effect of the transfers of a Gene that helped; none where none did.
fn measure(history: &Vec<RecordedEvent>, gene_id: &str) -> (result: Option<Mean>)
    ensures
        match result {
            Some(mean) => is_mean(mean, history@, gene_id@),
            None => positive_count(history@, gene_id@) == 0,
        },
{
    let length: usize = history.len();
    let mut total: i128 = 0;
    let mut count: u64 = 0;
    for at in 0..length
        invariant
            length == history@.len(),
            length <= 0xffff_ffff_ffff_ffff,
            total == positive_total(history@.take(at as int), gene_id@),
            count == positive_count(history@.take(at as int), gene_id@),
    {
        proof {
            assert(history@.take(at + 1).drop_last() == history@.take(at as int));
            assert(history@.take(at + 1).last() == history@[at as int]);
            totals_are_bounded(history@.take(at as int), gene_id@);
        }
        if let EventPayload::GeneTransferRecorded(transfer) = &history[at].payload {
            if text::text_eq(transfer.gene_id.as_str(), gene_id) && transfer.outcome
                == GeneTransferOutcome::Positive {
                total = total + transfer.estimate_bps as i128;
                count = count + 1;
            }
        }
    }
    proof {
        assert(history@.take(length as int) == history@);
        totals_are_bounded(history@, gene_id@);
    }
    if count == 0 {
        return None;
    }
    Some(Mean::new(total, count))
}

/// Whether no extracted Gene that changes an operation has helped.
pub open spec fn no_gene_helps(history: Seq<RecordedEvent>, operation: Seq<char>) -> bool {
    forall|at: int| !#[trigger] eligible(history, operation, at)
}

/// Finds the operation that the best Gene for `current_operation` changes to.
pub fn best_gene_target_operation(history: &Vec<RecordedEvent>, current_operation: &str) -> (result: Option<
    String,
>)
    ensures
        match result {
            Some(operation) => exists|at: int| #[trigger]
                is_best(history@, current_operation@, at) && operation@ == gene_of(
                    history@[at],
                )->0.operation_after@,
            None => forall|at: int| !#[trigger] eligible(history@, current_operation@, at),
        },
        result is None ==> no_gene_helps(history@, current_operation@),
{
    let ghost operation = current_operation@;
    let mut best: Option<(Mean, usize)> = None;
    for at in 0..history.len()
        invariant
            operation == current_operation@,
            match best {
                Some((mean, chosen)) => chosen < at && eligible(history@, operation, chosen as int)
                    && is_mean(mean, history@, gene_of(history@[chosen as int])->0.gene_id@)
                    && forall|other: int|
                    0 <= other < at && other != chosen && #[trigger] eligible(
                        history@,
                        operation,
                        other,
                    ) ==> preferred(history@, chosen as int, other),
                None => forall|other: int|
                    0 <= other < at ==> !#[trigger] eligible(history@, operation, other),
            },
    {
        if let EventPayload::GeneExtracted(gene) = &history[at].payload {
            if text::text_eq(gene.operation_before.as_str(), current_operation) {
                if let Some(mean) = measure(history, gene.gene_id.as_str()) {
                    assert(eligible(history@, operation, at as int));
                    best = Some(
                        match best {
                            None => (mean, at),
                            Some((best_mean, chosen)) => {
                                let mut better: bool = mean.is_higher(&best_mean);
                                if let EventPayload::GeneExtracted(leader) =
                                    &history[chosen].payload {
                                    if !better && !best_mean.is_higher(&mean) && text::text_less(
                                        gene.gene_id.as_str(),
                                        leader.gene_id.as_str(),
                                    ) {
                                        better = true;
                                    }
                                    proof {
                                        prefers_transitively(
                                            history@,
                                            operation,
                                            chosen as int,
                                            at as int,
                                            better,
                                        );
                                    }
                                }
                                if better {
                                    (mean, at)
                                } else {
                                    (best_mean, chosen)
                                }
                            },
                        },
                    );
                } else {
                    assert(!eligible(history@, operation, at as int));
                }
            } else {
                assert(!eligible(history@, operation, at as int));
            }
        } else {
            assert(!eligible(history@, operation, at as int));
        }
    }
    match best {
        Some((_, chosen)) => {
            assert(is_best(history@, operation, chosen as int));
            match &history[chosen].payload {
                EventPayload::GeneExtracted(gene) => Some(gene.operation_after.clone()),
                _ => None,
            }
        },
        None => None,
    }
}

/// The leader among the Genes before `at` stays preferred to all of them, or the Gene at
/// `at` is preferred to them all.
proof fn prefers_transitively(
    history: Seq<RecordedEvent>,
    operation: Seq<char>,
    chosen: int,
    at: int,
    better: bool,
)
    requires
        eligible(history, operation, chosen),
        eligible(history, operation, at),
        chosen < at,
        forall|other: int|
            0 <= other < at && other != chosen && #[trigger] eligible(history, operation, other)
                ==> preferred(history, chosen, other),
        ({
            let gene = gene_of(history[at])->0.gene_id@;
            let leader = gene_of(history[chosen])->0.gene_id@;
            better == (helps_more(history, gene, leader) || (!helps_more(history, leader, gene)
                && text::precedes(gene, leader)))
        }),
    ensures
        better ==> forall|other: int|
            0 <= other < at && #[trigger] eligible(history, operation, other) ==> preferred(
                history,
                at,
                other,
            ),
        !better ==> preferred(history, chosen, at),
{
    let gene = gene_of(history[at])->0.gene_id@;
    let leader = gene_of(history[chosen])->0.gene_id@;
    text::precedes_total(gene, leader);
    let total = positive_total(history, gene);
    let count = positive_count(history, gene) as int;
    let leading = positive_total(history, leader);
    let leading_count = positive_count(history, leader) as int;
    if better {
        assert forall|other: int|
            0 <= other < at && #[trigger] eligible(history, operation, other) implies preferred(
            history,
            at,
            other,
        ) by {
            if other != chosen {
                let third = gene_of(history[other])->0.gene_id@;
                means_are_ordered(
                    total,
                    count,
                    leading,
                    leading_count,
                    positive_total(history, third),
                    positive_count(history, third) as int,
                );
                if text::precedes(gene, leader) && text::precedes(leader, third) {
                    text::precedes_transitive(gene, leader, third);
                }
            }
        }
    }
}

} // verus!
