//! Stock: the location filter, what a caller may see of the amounts held,
//! and the steps of buying an order.

use vstd::prelude::*;
use sqlx::types::Decimal;
use crate::filter::{ids_of, one_of, one_of_filter, Column, Filter};
use crate::queries::{basic_err_of, BasicErr, DbErrKind};

verus! {

/// Keeps stock entries held at one of the given locations; without a list
/// no entry passes.
pub fn location_cond(locations: Option<Vec<i32>>) -> (f: Filter)
    ensures
        f@ == one_of_filter(Column::StockLocation, ids_of(locations)),
{
    one_of(Column::StockLocation, locations)
}

/// Only a caller with a session token may ask for the amount held.
pub fn amount_access(token: &Option<String>) -> (r: Result<(), BasicErr>)
    ensures
        r == (if token is Some {
            Ok::<(), BasicErr>(())
        } else {
            Err(BasicErr::NotAuthorized)
        }),
{
    if token.is_some() {
        Ok(())
    } else {
        Err(BasicErr::NotAuthorized)
    }
}

/// The amount held at a location, from what the lookup returned: no entry
/// means nothing is held.
pub fn get_amount(fetched: Result<Option<i32>, DbErrKind>) -> (r: Result<i32, BasicErr>)
    ensures
        r == (match fetched {
            Ok(Some(a)) => Ok::<i32, BasicErr>(a),
            Ok(None) => Ok(0),
            Err(k) => Err(basic_err_of(k)),
        }),
{
    match fetched {
        Ok(Some(a)) => Ok(a),
        Ok(None) => Ok(0),
        Err(k) => Err(BasicErr::from(k)),
    }
}

/// A stock entry joined with its product and the name of its category.
#[derive(Debug, PartialEq)]
pub struct JoinedStockQueryRes {
    pub id: i32,
    pub location: i32,
    pub product: i32,
    pub amount: i32,
    pub name: String,
    pub description: Option<String>,
    pub price: Decimal,
    pub discount: Option<Decimal>,
    pub category: Option<String>,
    pub final_price: Decimal,
}

/// The amount that a caller sees: the exact amount for one who may manage
/// products, otherwise only whether the product is in stock (1) or not (0).
pub open spec fn visible(amount: i32, can_manage_products: bool) -> i32 {
    if can_manage_products {
        amount
    } else if amount < 1 {
        0
    } else {
        1
    }
}

/// The amount that a caller sees of one stock entry.
pub fn visible_amount(amount: i32, can_manage_products: bool) -> (v: i32)
    ensures
        v == visible(amount, can_manage_products),
{
    if can_manage_products {
        amount
    } else if amount < 1 {
        0
    } else {
        1
    }
}

/// An entry with the amount that a caller sees.
pub open spec fn masked(row: JoinedStockQueryRes, can_manage_products: bool) -> JoinedStockQueryRes {
    JoinedStockQueryRes { amount: visible(row.amount, can_manage_products), ..row }
}

/// Replaces the amount of every entry by the amount that the caller sees,
/// keeping the entries and their order.
pub fn mask_amounts(rows: &mut Vec<JoinedStockQueryRes>, can_manage_products: bool)
    ensures
        final(rows)@.len() == old(rows)@.len(),
        forall|i: int|
            0 <= i < old(rows)@.len() ==> #[trigger] final(rows)@[i] == masked(old(rows)@[i], can_manage_products),
{
    if can_manage_products {
        assert forall|i: int| 0 <= i < old(rows)@.len() implies #[trigger] rows@[i] == masked(old(rows)@[i], can_manage_products) by {
            assert(masked(old(rows)@[i], can_manage_products) =~= old(rows)@[i]);
        }
        return;
    }
    let n = rows.len();
    for i in 0..n
        invariant
            rows@.len() == n,
            n == old(rows)@.len(),
            !can_manage_products,
            forall|j: int| 0 <= j < i ==> #[trigger] rows@[j] == masked(old(rows)@[j], can_manage_products),
            forall|j: int| i <= j < n ==> #[trigger] rows@[j] == old(rows)@[j],
    {
        let mut row = rows.remove(i);
        row.amount = visible_amount(row.amount, can_manage_products);
        rows.insert(i, row);
    }
}

/// What a caller sees is all there is to see: a manager sees the amount, any
/// other caller a 0 or a 1 that tells whether the product is in stock;
/// masking what was already masked changes nothing.
pub proof fn law_visible_amounts(amount: i32, can_manage_products: bool)
    ensures
        can_manage_products ==> visible(amount, can_manage_products) == amount,
        !can_manage_products ==> (visible(amount, can_manage_products) == 0 || visible(
            amount,
            can_manage_products,
        ) == 1),
        !can_manage_products ==> (visible(amount, can_manage_products) > 0 <==> amount > 0),
        visible(visible(amount, can_manage_products), can_manage_products) == visible(
            amount,
            can_manage_products,
        ),
{
}

/// Masking an entry changes its amount and nothing else: a manager sees the
/// amount as it is, any other caller 1 for an amount of at least one and 0
/// otherwise; the product, its prices, discount, category and location stay.
pub proof fn law_masking_changes_only_the_amount(row: JoinedStockQueryRes, can_manage_products: bool)
    ensures
        masked(row, can_manage_products).id == row.id,
        masked(row, can_manage_products).location == row.location,
        masked(row, can_manage_products).product == row.product,
        masked(row, can_manage_products).name == row.name,
        masked(row, can_manage_products).description == row.description,
        masked(row, can_manage_products).price == row.price,
        masked(row, can_manage_products).discount == row.discount,
        masked(row, can_manage_products).category == row.category,
        masked(row, can_manage_products).final_price == row.final_price,
        can_manage_products ==> masked(row, can_manage_products).amount == row.amount,
        !can_manage_products && row.amount >= 1 ==> masked(row, can_manage_products).amount == 1,
        !can_manage_products && row.amount < 1 ==> masked(row, can_manage_products).amount == 0,
{
}

/// The entries that a caller sees of a list.
pub open spec fn masked_rows(rows: Seq<JoinedStockQueryRes>, can_manage_products: bool) -> Seq<JoinedStockQueryRes> {
    rows.map_values(|row: JoinedStockQueryRes| masked(row, can_manage_products))
}

/// What `mask_amounts` leaves is the list of the entries that the caller
/// sees.
pub proof fn law_mask_amounts_gives_masked_rows(
    before: Seq<JoinedStockQueryRes>,
    after: Seq<JoinedStockQueryRes>,
    can_manage_products: bool,
)
    requires
        after.len() == before.len(),
        forall|i: int| 0 <= i < before.len() ==> #[trigger] after[i] == masked(before[i], can_manage_products),
    ensures
        after == masked_rows(before, can_manage_products),
{
    assert(after =~= masked_rows(before, can_manage_products));
}

/// Whether two entries are the same but for their amounts.
pub open spec fn differ_in_amount_only(a: JoinedStockQueryRes, b: JoinedStockQueryRes) -> bool {
    a == JoinedStockQueryRes { amount: a.amount, ..b }
}

/// A caller who may not manage products learns nothing of the amounts but
/// whether each product is in stock: two lists that differ only in amounts,
/// each entry being in stock in both or in neither, look the same to it.
pub proof fn law_unprivileged_callers_see_only_availability(
    rows1: Seq<JoinedStockQueryRes>,
    rows2: Seq<JoinedStockQueryRes>,
)
    requires
        rows1.len() == rows2.len(),
        forall|i: int| 0 <= i < rows1.len() ==> differ_in_amount_only(#[trigger] rows1[i], rows2[i]),
        forall|i: int| 0 <= i < rows1.len() ==> ((#[trigger] rows1[i]).amount >= 1) == (rows2[i].amount >= 1),
    ensures
        masked_rows(rows1, false) == masked_rows(rows2, false),
{
    assert forall|i: int| 0 <= i < rows1.len() implies #[trigger] masked_rows(rows1, false)[i]
        == masked_rows(rows2, false)[i] by {
        assert(differ_in_amount_only(rows1[i], rows2[i]));
    }
    assert(masked_rows(rows1, false) =~= masked_rows(rows2, false));
}

/// One line of an order: a stock entry and the amount asked of it.
#[derive(Clone, Copy, Debug, PartialEq, Eq, Structural)]
pub struct BuyAmount {
    pub id: i32,
    pub amount: i32,
}

/// Where an order stands while it is bought.
#[derive(Clone, Copy, Debug, PartialEq, Eq, Structural)]
pub enum BuyState {
    /// Waiting for the amount held in the entry of line `i`.
    Reading(usize),
    /// Waiting for the decrement of the entry of line `i`.
    Updating(usize),
    /// Nothing more to do.
    Finished,
}

/// The next thing to do for an order.
#[derive(Clone, Copy, Debug, PartialEq, Eq, Structural)]
pub enum BuyAction {
    /// Read the amount held in stock entry `id`.
    ReadAmount(i32),
    /// Within the transaction, lower the amount of stock entry `id` by one.
    Decrement(i32),
    /// Commit the transaction: the order is bought.
    Commit,
    /// Roll the transaction back and answer with the error.
    Rollback(BasicErr),
    /// Answer with the error at once.
    Fail(BasicErr),
}

/// What the last action gave.
#[derive(Clone, Copy, Debug)]
pub enum BuyEvent {
    /// The amount held in the entry, or why it could not be read.
    AmountRead(Result<i32, BasicErr>),
    /// Whether the decrement succeeded.
    Decremented(Result<(), BasicErr>),
}

/// The first step of buying `order`: an empty order is committed at once.
pub open spec fn spec_buy_begin(order: Seq<BuyAmount>) -> (BuyState, BuyAction) {
    if order.len() == 0 {
        (BuyState::Finished, BuyAction::Commit)
    } else {
        (BuyState::Reading(0), BuyAction::ReadAmount(order[0].id))
    }
}

/// Whether `event` answers the action that led to `state`.
pub open spec fn buy_expects(order: Seq<BuyAmount>, state: BuyState, event: BuyEvent) -> bool {
    match state {
        BuyState::Reading(i) => i < order.len() && event is AmountRead,
        BuyState::Updating(i) => i < order.len() && event is Decremented,
        BuyState::Finished => false,
    }
}

/// The step after `event`. A line is served when the entry holds at least the
/// amount asked; the order is refused with `Invalid` and rolled back at the
/// first line that is not. A failed read ends the order with its error; a
/// failed decrement rolls it back. After the last line the order commits.
pub open spec fn spec_buy_step(order: Seq<BuyAmount>, state: BuyState, event: BuyEvent) -> (
    BuyState,
    BuyAction,
) {
    match state {
        BuyState::Reading(i) => match event {
            BuyEvent::AmountRead(Err(e)) => (BuyState::Finished, BuyAction::Fail(e)),
            BuyEvent::AmountRead(Ok(held)) => if held < order[i as int].amount {
                (BuyState::Finished, BuyAction::Rollback(BasicErr::Invalid))
            } else {
                (BuyState::Updating(i), BuyAction::Decrement(order[i as int].id))
            },
            _ => (BuyState::Finished, BuyAction::Fail(BasicErr::Internal)),
        },
        BuyState::Updating(i) => match event {
            BuyEvent::Decremented(Err(e)) => (BuyState::Finished, BuyAction::Rollback(e)),
            BuyEvent::Decremented(Ok(())) => if i + 1 < order.len() {
                (BuyState::Reading((i + 1) as usize), BuyAction::ReadAmount(order[i + 1].id))
            } else {
                (BuyState::Finished, BuyAction::Commit)
            },
            _ => (BuyState::Finished, BuyAction::Fail(BasicErr::Internal)),
        },
        BuyState::Finished => (BuyState::Finished, BuyAction::Fail(BasicErr::Internal)),
    }
}

/// Starts buying `order`.
pub fn buy_begin(order: &Vec<BuyAmount>) -> (r: (BuyState, BuyAction))
    ensures
        r == spec_buy_begin(order@),
{
    if order.len() == 0 {
        (BuyState::Finished, BuyAction::Commit)
    } else {
        (BuyState::Reading(0), BuyAction::ReadAmount(order[0].id))
    }
}

/// Takes the step of buying `order` after `event`.
pub fn buy_step(order: &Vec<BuyAmount>, state: BuyState, event: BuyEvent) -> (r: (BuyState, BuyAction))
    requires
        buy_expects(order@, state, event),
    ensures
        r == spec_buy_step(order@, state, event),
{
    match state {
        BuyState::Reading(i) => match event {
            BuyEvent::AmountRead(Err(e)) => (BuyState::Finished, BuyAction::Fail(e)),
            BuyEvent::AmountRead(Ok(held)) => if held < order[i].amount {
                (BuyState::Finished, BuyAction::Rollback(BasicErr::Invalid))
            } else {
                (BuyState::Updating(i), BuyAction::Decrement(order[i].id))
            },
            _ => (BuyState::Finished, BuyAction::Fail(BasicErr::Internal)),
        },
        BuyState::Updating(i) => match event {
            BuyEvent::Decremented(Err(e)) => (BuyState::Finished, BuyAction::Rollback(e)),
            BuyEvent::Decremented(Ok(())) => if i < order.len() - 1 {
                (BuyState::Reading(i + 1), BuyAction::ReadAmount(order[i + 1].id))
            } else {
                (BuyState::Finished, BuyAction::Commit)
            },
            _ => (BuyState::Finished, BuyAction::Fail(BasicErr::Internal)),
        },
        BuyState::Finished => (BuyState::Finished, BuyAction::Fail(BasicErr::Internal)),
    }
}

/// A read that fails ends the order with its error and no rollback; a
/// decrement that fails rolls the order back with its error; a line whose
/// entry holds at least the amount asked is lowered, one that holds less
/// refuses the order with `Invalid` and a rollback.
pub proof fn law_buy_step_outcomes(order: Seq<BuyAmount>, i: usize, e: BasicErr, held: i32)
    requires
        i < order.len(),
    ensures
        spec_buy_step(order, BuyState::Reading(i), BuyEvent::AmountRead(Err(e))) == (
        BuyState::Finished,
        BuyAction::Fail(e),
        ),
        spec_buy_step(order, BuyState::Updating(i), BuyEvent::Decremented(Err(e))) == (
        BuyState::Finished,
        BuyAction::Rollback(e),
        ),
        held >= order[i as int].amount ==> spec_buy_step(order, BuyState::Reading(i), BuyEvent::AmountRead(Ok(held)))
            == (BuyState::Updating(i), BuyAction::Decrement(order[i as int].id)),
        held < order[i as int].amount ==> spec_buy_step(order, BuyState::Reading(i), BuyEvent::AmountRead(Ok(held)))
            == (BuyState::Finished, BuyAction::Rollback(BasicErr::Invalid)),
        i + 1 < order.len() ==> spec_buy_step(order, BuyState::Updating(i), BuyEvent::Decremented(Ok(()))) == (
        BuyState::Reading((i + 1) as usize),
        BuyAction::ReadAmount(order[i + 1].id),
        ),
        i + 1 == order.len() ==> spec_buy_step(order, BuyState::Updating(i), BuyEvent::Decremented(Ok(())))
            == (BuyState::Finished, BuyAction::Commit),
{
}

/// The actions issued from `state` and `action` on when every read of the
/// entry of line `i` returns `held[i]` and every decrement succeeds.
pub open spec fn buy_trace(
    order: Seq<BuyAmount>,
    held: Seq<i32>,
    state: BuyState,
    action: BuyAction,
    fuel: nat,
) -> Seq<BuyAction>
    decreases fuel,
{
    if fuel == 0 {
        seq![action]
    } else {
        match action {
            BuyAction::ReadAmount(_) => match state {
                BuyState::Reading(i) => {
                    let (s, a) = spec_buy_step(order, state, BuyEvent::AmountRead(Ok(held[i as int])));
                    seq![action] + buy_trace(order, held, s, a, (fuel - 1) as nat)
                },
                _ => seq![action],
            },
            BuyAction::Decrement(_) => {
                let (s, a) = spec_buy_step(order, state, BuyEvent::Decremented(Ok(())));
                seq![action] + buy_trace(order, held, s, a, (fuel - 1) as nat)
            },
            _ => seq![action],
        }
    }
}

/// The actions that serve lines `i .. k` of an order: for each line, read its
/// entry and lower it by one.
pub open spec fn served(order: Seq<BuyAmount>, i: int, k: int) -> Seq<BuyAction>
    decreases k - i,
{
    if i >= k {
        Seq::empty()
    } else {
        seq![BuyAction::ReadAmount(order[i].id), BuyAction::Decrement(order[i].id)] + served(order, i + 1, k)
    }
}

/// From the read of line `i`, lines `i .. k` are served, then the order
/// commits (`k` the last line) or is refused at line `k`.
proof fn lemma_trace_from(order: Seq<BuyAmount>, held: Seq<i32>, i: int, k: int, fuel: nat)
    requires
        0 <= i <= k <= order.len() <= usize::MAX,
        i < order.len(),
        held.len() == order.len(),
        forall|j: int| i <= j < k ==> held[j] >= (#[trigger] order[j]).amount,
        k < order.len() ==> held[k] < order[k].amount,
        fuel >= 2 * (k - i) + 2,
    ensures
        buy_trace(order, held, BuyState::Reading(i as usize), BuyAction::ReadAmount(order[i].id), fuel)
            == served(order, i, k) + (if k < order.len() {
            seq![BuyAction::ReadAmount(order[k].id), BuyAction::Rollback(BasicErr::Invalid)]
        } else {
            seq![BuyAction::Commit]
        }),
    decreases k - i,
{
    let read = BuyAction::ReadAmount(order[i].id);
    let dec = BuyAction::Decrement(order[i].id);
    assert(buy_trace(order, held, BuyState::Finished, BuyAction::Rollback(BasicErr::Invalid), (fuel - 1) as nat)
        == seq![BuyAction::Rollback(BasicErr::Invalid)]);
    if i == k {
        assert(served(order, i, k) =~= Seq::<BuyAction>::empty());
        assert(buy_trace(order, held, BuyState::Reading(i as usize), read, fuel)
            =~= seq![read, BuyAction::Rollback(BasicErr::Invalid)]);
    } else {
        let rest = buy_trace(order, held, BuyState::Updating(i as usize), dec, (fuel - 1) as nat);
        assert(buy_trace(order, held, BuyState::Reading(i as usize), read, fuel) == seq![read] + rest);
        if i + 1 < order.len() {
            lemma_trace_from(order, held, i + 1, k, (fuel - 2) as nat);
            assert(rest == seq![dec] + buy_trace(
                order,
                held,
                BuyState::Reading((i + 1) as usize),
                BuyAction::ReadAmount(order[i + 1].id),
                (fuel - 2) as nat,
            ));
        } else {
            assert(served(order, i + 1, k) =~= Seq::<BuyAction>::empty());
            assert(buy_trace(order, held, BuyState::Finished, BuyAction::Commit, (fuel - 2) as nat)
                == seq![BuyAction::Commit]);
            assert(rest == seq![dec] + seq![BuyAction::Commit]);
        }
        assert(seq![read] + rest =~= served(order, i, k) + (if k < order.len() {
            seq![BuyAction::ReadAmount(order[k].id), BuyAction::Rollback(BasicErr::Invalid)]
        } else {
            seq![BuyAction::Commit]
        }));
    }
}

/// When every entry holds at least the amount asked of it and the database
/// does its part, each line's entry is read and lowered once, in the order of
/// the lines, and then the order commits.
pub proof fn law_buy_serves_every_line_then_commits(order: Seq<BuyAmount>, held: Seq<i32>)
    requires
        held.len() == order.len() <= usize::MAX,
        forall|j: int| 0 <= j < order.len() ==> held[j] >= (#[trigger] order[j]).amount,
    ensures
        buy_trace(order, held, spec_buy_begin(order).0, spec_buy_begin(order).1, 2 * order.len() + 2)
            == served(order, 0, order.len() as int) + seq![BuyAction::Commit],
{
    if order.len() == 0 {
        assert(served(order, 0, 0) =~= Seq::<BuyAction>::empty());
        assert(buy_trace(order, held, BuyState::Finished, BuyAction::Commit, 2) == seq![BuyAction::Commit]);
        assert(seq![BuyAction::Commit] =~= served(order, 0, 0) + seq![BuyAction::Commit]);
    } else {
        lemma_trace_from(order, held, 0, order.len() as int, 2 * order.len() + 2);
    }
}

/// At the first line whose entry holds less than the amount asked, the order
/// is refused with `Invalid` and rolled back: the lines before it have been
/// served, no entry of a later line is touched.
pub proof fn law_buy_refuses_at_first_shortage(order: Seq<BuyAmount>, held: Seq<i32>, k: int)
    requires
        held.len() == order.len() <= usize::MAX,
        0 <= k < order.len(),
        forall|j: int| 0 <= j < k ==> held[j] >= (#[trigger] order[j]).amount,
        held[k] < order[k].amount,
    ensures
        buy_trace(order, held, spec_buy_begin(order).0, spec_buy_begin(order).1, 2 * order.len() + 2)
            == served(order, 0, k) + seq![
            BuyAction::ReadAmount(order[k].id),
            BuyAction::Rollback(BasicErr::Invalid),
        ],
{
    lemma_trace_from(order, held, 0, k, 2 * order.len() + 2);
}

} // verus!
