//! Products: their list filters, and the records that creating or editing
//! one writes.

use vstd::prelude::*;
use sqlx::types::Decimal;
use crate::filter::{
    ids_of, pass_none, range_filter, text_filter, text_of, text_search, Atom, Column, Filter,
    FilterSpec, Junction, Predicate,
};
use crate::queries::BasicErr;
use crate::queries::positions::{lemma_five_contain, lemma_piece_contains};

verus! {

/// The category id that stands for "no category" in a category filter, and
/// for "clear the category" in an edit.
pub const NO_CATEGORY: i32 = -1;

/// A product row joined with the name of its category.
#[derive(Debug, PartialEq)]
pub struct ProdWithCatQueryRes {
    pub id: i32,
    pub name: String,
    pub description: Option<String>,
    pub price: Decimal,
    pub discount: Option<Decimal>,
    pub category: Option<String>,
    pub final_price: Decimal,
}

/// Search by product name; no filter without a name.
pub fn name_cond(name: Option<String>) -> (f: Filter)
    ensures
        f@ == text_filter(Column::ProductName, text_of(name)),
{
    text_search(Column::ProductName, name)
}

/// The ids of a category filter other than `NO_CATEGORY`, in their order.
pub open spec fn real_categories(ids: Seq<i32>) -> Seq<i32> {
    ids.filter(|x: i32| x != NO_CATEGORY)
}

/// The filter of a category selection: a product passes when it has no
/// category and `NO_CATEGORY` was selected, or when its category is one of
/// the other selected ids. Without a selection no product passes.
pub open spec fn spec_category_cond(categories: Option<Seq<i32>>) -> FilterSpec {
    match categories {
        None => pass_none(),
        Some(v) => FilterSpec {
            junction: Junction::Any,
            atoms: (if v.contains(NO_CATEGORY) {
                seq![Atom::IsNull(Column::ProductCategory)]
            } else {
                Seq::empty()
            }) + seq![Atom::IsIn(Column::ProductCategory, real_categories(v))],
        },
    }
}

fn contains_id(ids: &Vec<i32>, id: i32) -> (found: bool)
    ensures
        found == ids@.contains(id),
{
    let n = ids.len();
    for i in 0..n
        invariant
            n == ids@.len(),
            forall|j: int| 0 <= j < i ==> ids@[j] != id,
    {
        if ids[i] == id {
            return true;
        }
    }
    false
}

fn without_no_category(ids: &Vec<i32>) -> (kept: Vec<i32>)
    ensures
        kept@ == real_categories(ids@),
{
    let mut kept: Vec<i32> = Vec::new();
    let n = ids.len();
    for i in 0..n
        invariant
            n == ids@.len(),
            kept@ == real_categories(ids@.take(i as int)),
    {
        assert(ids@.take(i + 1).drop_last() =~= ids@.take(i as int));
        reveal_with_fuel(Seq::filter, 1);
        if ids[i] != NO_CATEGORY {
            kept.push(ids[i]);
        }
    }
    assert(ids@.take(n as int) =~= ids@);
    kept
}

/// Builds the filter of a category selection.
pub fn category_cond(categories: Option<Vec<i32>>) -> (f: Filter)
    ensures
        f@ == spec_category_cond(ids_of(categories)),
{
    let mut cond = Filter::new(Junction::Any);
    if let Some(v) = categories {
        if contains_id(&v, NO_CATEGORY) {
            cond.add(Predicate::IsNull(Column::ProductCategory));
        }
        let kept = without_no_category(&v);
        cond.add(Predicate::IsIn(Column::ProductCategory, kept));
        assert(cond@.atoms =~= spec_category_cond(ids_of(Some(v))).atoms);
    }
    cond
}

/// A price bound as a mathematical integer.
pub open spec fn bound16(b: Option<i16>) -> Option<int> {
    match b {
        Some(v) => Some(v as int),
        None => None,
    }
}

/// Builds the filter of a final-price range. A single price (both bounds
/// equal) is widened by one on each side.
pub fn price_cond(price_start: Option<i16>, price_end: Option<i16>) -> (f: Filter)
    requires
        price_start is Some && price_start == price_end ==> i16::MIN < price_start->0 < i16::MAX,
    ensures
        f@ == range_filter(Column::ProductFinalPrice, bound16(price_start), bound16(price_end)),
{
    let mut start = price_start;
    let mut end = price_end;
    if start.is_some() && start == end {
        start = Some(price_start.unwrap() - 1);
        end = Some(price_end.unwrap() + 1);
    }
    let mut cond = Filter::new(Junction::All);
    if let Some(v) = start {
        cond.add(Predicate::AtLeast(Column::ProductFinalPrice, v as i64));
    }
    if let Some(v) = end {
        cond.add(Predicate::AtMost(Column::ProductFinalPrice, v as i64));
    }
    assert(cond@.atoms =~= range_filter(Column::ProductFinalPrice, bound16(price_start), bound16(price_end)).atoms);
    cond
}

/// A product passes a category filter exactly when it has no category and
/// `NO_CATEGORY` was selected, or when it meets the test on the other ids.
pub proof fn law_category_selection(ids: Seq<i32>, meets: spec_fn(Atom) -> bool)
    ensures
        spec_category_cond(Some(ids)).admits(meets) <==> (ids.contains(NO_CATEGORY) && meets(
            Atom::IsNull(Column::ProductCategory),
        )) || meets(Atom::IsIn(Column::ProductCategory, real_categories(ids))),
        !spec_category_cond(None).admits(meets),
        !real_categories(ids).contains(NO_CATEGORY),
{
    let f = spec_category_cond(Some(ids));
    let last = Atom::IsIn(Column::ProductCategory, real_categories(ids));
    if ids.contains(NO_CATEGORY) {
        assert(f.atoms[0] == Atom::IsNull(Column::ProductCategory));
        assert(f.atoms[1] == last);
    } else {
        assert(f.atoms[0] == last);
    }
    if real_categories(ids).contains(NO_CATEGORY) {
        let i = choose|i: int| 0 <= i < real_categories(ids).len() && real_categories(ids)[i] == NO_CATEGORY;
        ids.lemma_filter_pred(|x: i32| x != NO_CATEGORY, i);
    }
}

/// The ids kept besides "no category" are exactly the selected ids other
/// than `NO_CATEGORY` (which is -1).
pub proof fn law_real_categories_keep_every_other_id(ids: Seq<i32>, x: i32)
    ensures
        NO_CATEGORY == -1,
        x != -1 ==> (real_categories(ids).contains(x) <==> ids.contains(x)),
        !real_categories(ids).contains(-1i32),
{
    let p = |y: i32| y != NO_CATEGORY;
    if real_categories(ids).contains(x) {
        ids.lemma_filter_contains_rev(p, x);
    }
    if x != -1 && ids.contains(x) {
        let i = choose|i: int| 0 <= i < ids.len() && ids[i] == x;
        ids.lemma_filter_contains(p, i);
    }
    if real_categories(ids).contains(-1i32) {
        let i = choose|i: int| 0 <= i < real_categories(ids).len() && real_categories(ids)[i] == -1;
        ids.lemma_filter_pred(p, i);
    }
}

/// A product record to insert; a field left `None` takes the database's
/// default.
#[derive(Debug, PartialEq)]
pub struct NewProduct {
    pub name: String,
    pub description: Option<String>,
    pub price: Decimal,
    pub discount: Option<Decimal>,
    pub category: Option<i32>,
}

/// The value of an optional field once its conversion has succeeded.
pub open spec fn converted<T>(v: Option<Option<T>>) -> Option<T> {
    match v {
        Some(Some(x)) => Some(x),
        _ => None,
    }
}

/// The record that creating a product inserts. `price` is the requested
/// price as a decimal, `None` where it has none; `discount` is the requested
/// discount, if any, converted the same way. A price or a discount without a
/// decimal value is refused with `Invalid`.
pub fn create(
    name: String,
    description: Option<String>,
    price: Option<Decimal>,
    discount: Option<Option<Decimal>>,
    category: Option<i32>,
) -> (r: Result<NewProduct, BasicErr>)
    ensures
        price is None ==> r == Err::<NewProduct, BasicErr>(BasicErr::Invalid),
        price is Some && discount == Some(None::<Decimal>) ==> r == Err::<NewProduct, BasicErr>(
            BasicErr::Invalid,
        ),
        price is Some && discount != Some(None::<Decimal>) ==> r == Ok::<NewProduct, BasicErr>(
            NewProduct { name, description, price: price->0, discount: converted(discount), category },
        ),
{
    let price = match price {
        Some(p) => p,
        None => return Err(BasicErr::Invalid),
    };
    let discount = match discount {
        Some(None) => return Err(BasicErr::Invalid),
        Some(Some(d)) => Some(d),
        None => None,
    };
    Ok(NewProduct { name, description, price, discount, category })
}

/// One column assignment of a product edit.
#[derive(Debug, PartialEq)]
pub enum ProductChange {
    Name(String),
    Description(String),
    Price(Decimal),
    Discount(Decimal),
    Category(i32),
    /// The product is left without a category.
    ClearCategory,
}

/// The assignments of a product edit, in the order they are written.
#[derive(Debug, PartialEq)]
pub struct ProductEdit {
    pub id: i32,
    pub changes: Vec<ProductChange>,
}

/// The assignments that an edit with these (converted) values writes: each
/// given value in the order name, description, price, discount, category;
/// the category `NO_CATEGORY` clears the category.
pub open spec fn product_changes(
    name: Option<String>,
    description: Option<String>,
    price: Option<Decimal>,
    discount: Option<Decimal>,
    category: Option<i32>,
) -> Seq<ProductChange> {
    (match name {
        Some(v) => seq![ProductChange::Name(v)],
        None => Seq::empty(),
    }) + (match description {
        Some(v) => seq![ProductChange::Description(v)],
        None => Seq::empty(),
    }) + (match price {
        Some(v) => seq![ProductChange::Price(v)],
        None => Seq::empty(),
    }) + (match discount {
        Some(v) => seq![ProductChange::Discount(v)],
        None => Seq::empty(),
    }) + (match category {
        Some(v) => if v == NO_CATEGORY {
            seq![ProductChange::ClearCategory]
        } else {
            seq![ProductChange::Category(v)]
        },
        None => Seq::empty(),
    })
}

/// The discount that an edit writes: only a requested discount that has a
/// decimal value. A request to set no discount writes nothing.
pub open spec fn edited_discount(discount: Option<Option<Option<Decimal>>>) -> Option<Decimal> {
    match discount {
        Some(Some(Some(d))) => Some(d),
        _ => None,
    }
}

/// The assignments of an edit of product `id`. `price` is the requested
/// price, if any, as a decimal (`None` inside where it has none); `discount`
/// is the requested discount, if any, which may be a request for no
/// discount, converted the same way. A requested value without a decimal
/// value is refused with `Invalid`, the price before the discount.
pub fn edit(
    id: i32,
    name: Option<String>,
    description: Option<String>,
    price: Option<Option<Decimal>>,
    discount: Option<Option<Option<Decimal>>>,
    category: Option<i32>,
) -> (r: Result<ProductEdit, BasicErr>)
    ensures
        price == Some(None::<Decimal>) ==> r == Err::<ProductEdit, BasicErr>(BasicErr::Invalid),
        price != Some(None::<Decimal>) && discount == Some(Some(None::<Decimal>)) ==> r == Err::<
            ProductEdit,
            BasicErr,
        >(BasicErr::Invalid),
        price != Some(None::<Decimal>) && discount != Some(Some(None::<Decimal>)) ==> r is Ok,
        r matches Ok(e) ==> e.id == id && e.changes@ == product_changes(
            name,
            description,
            converted(price),
            edited_discount(discount),
            category,
        ),
{
    let price = match price {
        Some(None) => return Err(BasicErr::Invalid),
        Some(Some(p)) => Some(p),
        None => None,
    };
    let discount = match discount {
        Some(Some(None)) => return Err(BasicErr::Invalid),
        Some(Some(Some(d))) => Some(d),
        _ => None,
    };
    let ghost (n0, d0, p0, c0, k0) = (name, description, price, discount, category);
    let mut changes: Vec<ProductChange> = Vec::new();
    if let Some(v) = name {
        changes.push(ProductChange::Name(v));
    }
    if let Some(v) = description {
        changes.push(ProductChange::Description(v));
    }
    if let Some(v) = price {
        changes.push(ProductChange::Price(v));
    }
    if let Some(v) = discount {
        changes.push(ProductChange::Discount(v));
    }
    if let Some(v) = category {
        if v == NO_CATEGORY {
            changes.push(ProductChange::ClearCategory);
        } else {
            changes.push(ProductChange::Category(v));
        }
    }
    assert(changes@ =~= product_changes(n0, d0, p0, c0, k0));
    Ok(ProductEdit { id, changes })
}

/// A converted value is kept exactly when its conversion gave a decimal.
pub proof fn law_converted_keeps_only_decimal_values(amount: Decimal)
    ensures
        converted(Some(Some(amount))) == Some(amount),
        converted(Some(None::<Decimal>)) is None,
        converted(None::<Option<Decimal>>) is None,
        edited_discount(Some(Some(Some(amount)))) == Some(amount),
        edited_discount(Some(Some(None::<Decimal>))) is None,
        edited_discount(Some(None::<Option<Decimal>>)) is None,
        edited_discount(None::<Option<Option<Decimal>>>) is None,
{
}

/// An edit writes each given value to its own column and nothing else: the
/// name, description, price and discount as given, a category id to the
/// category, and `NO_CATEGORY` as clearing the category.
pub proof fn law_product_edit_writes_each_value_to_its_own_column(
    name: Option<String>,
    description: Option<String>,
    price: Option<Decimal>,
    discount: Option<Decimal>,
    category: Option<i32>,
    text: String,
    amount: Decimal,
    id: i32,
)
    ensures
        product_changes(name, description, price, discount, category).contains(ProductChange::Name(text)) <==> name == Some(text),
        product_changes(name, description, price, discount, category).contains(ProductChange::Description(text)) <==> description == Some(text),
        product_changes(name, description, price, discount, category).contains(ProductChange::Price(amount)) <==> price == Some(amount),
        product_changes(name, description, price, discount, category).contains(ProductChange::Discount(amount)) <==> discount == Some(amount),
        product_changes(name, description, price, discount, category).contains(ProductChange::Category(id)) <==> category == Some(id) && id != -1,
        product_changes(name, description, price, discount, category).contains(ProductChange::ClearCategory) <==> category == Some(-1i32),
{
    let a = match name {
        Some(v) => seq![ProductChange::Name(v)],
        None => Seq::empty(),
    };
    let b = match description {
        Some(v) => seq![ProductChange::Description(v)],
        None => Seq::empty(),
    };
    let c = match price {
        Some(v) => seq![ProductChange::Price(v)],
        None => Seq::empty(),
    };
    let d = match discount {
        Some(v) => seq![ProductChange::Discount(v)],
        None => Seq::empty(),
    };
    let e = match category {
        Some(v) => if v == NO_CATEGORY {
            seq![ProductChange::ClearCategory]
        } else {
            seq![ProductChange::Category(v)]
        },
        None => Seq::empty(),
    };
    assert(product_changes(name, description, price, discount, category) == a + b + c + d + e);
    lemma_five_contain(a, b, c, d, e, ProductChange::Name(text));
    lemma_piece_contains(a, ProductChange::Name(text));
    lemma_piece_contains(b, ProductChange::Name(text));
    lemma_piece_contains(c, ProductChange::Name(text));
    lemma_piece_contains(d, ProductChange::Name(text));
    lemma_piece_contains(e, ProductChange::Name(text));
    lemma_five_contain(a, b, c, d, e, ProductChange::Description(text));
    lemma_piece_contains(a, ProductChange::Description(text));
    lemma_piece_contains(b, ProductChange::Description(text));
    lemma_piece_contains(c, ProductChange::Description(text));
    lemma_piece_contains(d, ProductChange::Description(text));
    lemma_piece_contains(e, ProductChange::Description(text));
    lemma_five_contain(a, b, c, d, e, ProductChange::Price(amount));
    lemma_piece_contains(a, ProductChange::Price(amount));
    lemma_piece_contains(b, ProductChange::Price(amount));
    lemma_piece_contains(c, ProductChange::Price(amount));
    lemma_piece_contains(d, ProductChange::Price(amount));
    lemma_piece_contains(e, ProductChange::Price(amount));
    lemma_five_contain(a, b, c, d, e, ProductChange::Discount(amount));
    lemma_piece_contains(a, ProductChange::Discount(amount));
    lemma_piece_contains(b, ProductChange::Discount(amount));
    lemma_piece_contains(c, ProductChange::Discount(amount));
    lemma_piece_contains(d, ProductChange::Discount(amount));
    lemma_piece_contains(e, ProductChange::Discount(amount));
    lemma_five_contain(a, b, c, d, e, ProductChange::Category(id));
    lemma_piece_contains(a, ProductChange::Category(id));
    lemma_piece_contains(b, ProductChange::Category(id));
    lemma_piece_contains(c, ProductChange::Category(id));
    lemma_piece_contains(d, ProductChange::Category(id));
    lemma_piece_contains(e, ProductChange::Category(id));
    lemma_five_contain(a, b, c, d, e, ProductChange::ClearCategory);
    lemma_piece_contains(a, ProductChange::ClearCategory);
    lemma_piece_contains(b, ProductChange::ClearCategory);
    lemma_piece_contains(c, ProductChange::ClearCategory);
    lemma_piece_contains(d, ProductChange::ClearCategory);
    lemma_piece_contains(e, ProductChange::ClearCategory);
}

} // verus!
