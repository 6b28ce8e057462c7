//! Sale command: line totals in minor units, request checks and the sale subtotal.
use crate::text::{char_count, trim, trim_seq};
use vstd::prelude::*;

verus! {

#[derive(Debug)]
pub struct SaleItem {
    pub product_id: String,
    pub variant_id: Option<String>,
    pub quantity_milli: i64,
    pub unit_price_minor: i64,
}

#[derive(Debug)]
pub struct CreateSaleRequest {
    pub branch_id: String,
    pub shift_id: String,
    pub user_id: String,
    pub idempotency_key: String,
    pub items: Vec<SaleItem>,
    pub payment_method: String,
    pub currency: String,
}

#[derive(Debug)]
pub struct SalesReportSummary {
    pub sales_count: i64, pub total_minor: i64
}

/// Line total in minor units: quantity (thousandths) times unit price, rounded half up to
/// whole minor units.
pub open spec fn line_total_spec(quantity_milli: i64, unit_price_minor: i64) -> Result<int, Seq<char>> {
    if quantity_milli <= 0 || unit_price_minor < 0 {
        Err("invalid sale quantity or price"@)
    } else if (quantity_milli * unit_price_minor + 500) / 1000 > i64::MAX {
        Err("line total exceeds i64 range"@)
    } else {
        Ok((quantity_milli * unit_price_minor + 500) / 1000)
    }
}

impl SaleItem {
    /// The line total of this item in minor units.
    pub fn line_total_minor(&self) -> (r: Result<i64, String>)
        ensures
            match line_total_spec(self.quantity_milli, self.unit_price_minor) {
                Ok(t) => r == Ok::<i64, String>(t as i64),
                Err(m) => r matches Err(x) && x@ == m,
            },
    {
        if self.quantity_milli <= 0 || self.unit_price_minor < 0 {
            return Err(String::from_str("invalid sale quantity or price"));
        }
        let q = self.quantity_milli as i128;
        let p = self.unit_price_minor as i128;
        assert(0 <= q * p <= 9223372036854775807 * 9223372036854775807) by (nonlinear_arith)
            requires
                0 < q <= 9223372036854775807,
                0 <= p <= 9223372036854775807,
        ;
        let product = q * p;
        let t = (product + 500) / 1000;
        if t > 9223372036854775807i128 {
            return Err(String::from_str("line total exceeds i64 range"));
        }
        Ok(t as i64)
    }
}

pub open spec fn blank(s: String) -> bool {
    trim_seq(s@).len() == 0
}

/// The first failing check of a sale item, if any.
pub open spec fn item_problem(i: SaleItem) -> Option<Seq<char>> {
    if blank(i.product_id) {
        Some("product_id is required"@)
    } else if i.quantity_milli <= 0 {
        Some("quantity must be positive"@)
    } else if i.unit_price_minor < 0 {
        Some("unit_price_minor must be non-negative"@)
    } else {
        match line_total_spec(i.quantity_milli, i.unit_price_minor) {
            Err(m) => Some(m),
            Ok(_) => None,
        }
    }
}

/// The first failing item check of `items` from index `k` on.
pub open spec fn items_problem_from(items: Seq<SaleItem>, k: int) -> Option<Seq<char>>
    decreases items.len() - k,
{
    if k < 0 || k >= items.len() {
        None
    } else {
        match item_problem(items[k]) {
            Some(m) => Some(m),
            None => items_problem_from(items, k + 1),
        }
    }
}

/// What `validate_request` decides.
pub open spec fn sale_request_spec(r: CreateSaleRequest) -> Result<(), Seq<char>> {
    if blank(r.branch_id) || blank(r.shift_id) || blank(r.user_id) || blank(r.idempotency_key)
        || blank(r.currency) || blank(r.payment_method) {
        Err("required sale fields are missing"@)
    } else if r.items@.len() == 0 {
        Err("at least one sale item is required"@)
    } else {
        match items_problem_from(r.items@, 0) {
            Some(m) => Err(m),
            None => Ok(()),
        }
    }
}

fn is_blank(s: &String) -> (r: bool)
    ensures
        r == blank(*s),
{
    char_count(trim(s.as_str())) == 0
}

/// Checks a sale request: required fields, at least one item, and every item well formed.
pub fn validate_request(request: &CreateSaleRequest) -> (r: Result<(), String>)
    ensures
        match sale_request_spec(*request) {
            Ok(()) => r is Ok,
            Err(m) => r matches Err(x) && x@ == m,
        },
{
    if is_blank(&request.branch_id) || is_blank(&request.shift_id) || is_blank(&request.user_id)
        || is_blank(&request.idempotency_key) || is_blank(&request.currency) || is_blank(
        &request.payment_method,
    ) {
        return Err(String::from_str("required sale fields are missing"));
    }
    if request.items.len() == 0 {
        return Err(String::from_str("at least one sale item is required"));
    }
    let mut k: usize = 0;
    while k < request.items.len()
        invariant
            k <= request.items@.len(),
            sale_request_spec(*request) == (match items_problem_from(request.items@, k as int) {
                Some(m) => Err(m),
                None => Ok::<(), Seq<char>>(()),
            }),
        decreases request.items.len() - k,
    {
        let item = &request.items[k];
        if is_blank(&item.product_id) {
            return Err(String::from_str("product_id is required"));
        }
        if item.quantity_milli <= 0 {
            return Err(String::from_str("quantity must be positive"));
        }
        if item.unit_price_minor < 0 {
            return Err(String::from_str("unit_price_minor must be non-negative"));
        }
        match item.line_total_minor() {
            Err(m) => {
                return Err(m);
            },
            Ok(_) => {},
        }
        k = k + 1;
    }
    Ok(())
}

/// Sum of the line totals of `items` (each assumed computable).
pub open spec fn lines_sum(items: Seq<SaleItem>) -> int
    decreases items.len(),
{
    if items.len() == 0 {
        0
    } else {
        lines_sum(items.drop_last()) + match line_total_spec(items.last().quantity_milli, items.last().unit_price_minor) {
            Ok(t) => t,
            Err(_) => 0,
        }
    }
}

/// What `sale_subtotal_minor` decides: the first failing line's error, or the running total's
/// overflow, or the sum of the line totals.
pub open spec fn subtotal_spec(items: Seq<SaleItem>) -> Result<int, Seq<char>>
    decreases items.len(),
{
    if items.len() == 0 {
        Ok(0)
    } else {
        match subtotal_spec(items.drop_last()) {
            Err(m) => Err(m),
            Ok(s) => match line_total_spec(items.last().quantity_milli, items.last().unit_price_minor) {
                Err(m) => Err(m),
                Ok(t) => if s + t > i64::MAX {
                    Err("sale total overflow"@)
                } else {
                    Ok(s + t)
                },
            },
        }
    }
}

/// The subtotal of a sale in minor units.
pub fn sale_subtotal_minor(items: &Vec<SaleItem>) -> (r: Result<i64, String>)
    ensures
        match subtotal_spec(items@) {
            Ok(s) => r == Ok::<i64, String>(s as i64),
            Err(m) => r matches Err(x) && x@ == m,
        },
{
    let mut acc: i64 = 0;
    let mut k: usize = 0;
    while k < items.len()
        invariant
            k <= items@.len(),
            subtotal_spec(items@.take(k as int)) == Ok::<int, Seq<char>>(acc as int),
            acc >= 0,
        decreases items.len() - k,
    {
        proof {
            assert(items@.take(k + 1).drop_last() =~= items@.take(k as int));
        }
        let t = match items[k].line_total_minor() {
            Err(m) => {
                proof {
                    lemma_subtotal_err_persists(items@, k as int + 1);
                }
                return Err(m);
            },
            Ok(t) => t,
        };
        if acc > i64::MAX - t {
            proof {
                lemma_subtotal_err_persists(items@, k as int + 1);
            }
            return Err(String::from_str("sale total overflow"));
        }
        acc = acc + t;
        k = k + 1;
    }
    assert(items@.take(items@.len() as int) =~= items@);
    Ok(acc)
}

/// Once a prefix of the items fails, the whole list fails the same way.
proof fn lemma_subtotal_err_persists(items: Seq<SaleItem>, k: int)
    requires
        0 <= k <= items.len(),
        subtotal_spec(items.take(k)) is Err,
    ensures
        subtotal_spec(items) == subtotal_spec(items.take(k)),
    decreases items.len() - k,
{
    if k < items.len() {
        assert(items.take(k + 1).drop_last() =~= items.take(k));
        lemma_subtotal_err_persists(items, k + 1);
    } else {
        assert(items.take(k) =~= items);
    }
}

/// Line totals round half up: the total is within half a minor unit of the exact amount.
pub proof fn lemma_line_total_rounding(quantity_milli: i64, unit_price_minor: i64)
    requires
        line_total_spec(quantity_milli, unit_price_minor) is Ok,
    ensures
        ({
            let t = line_total_spec(quantity_milli, unit_price_minor)->Ok_0;
            &&& 1000 * t <= quantity_milli * unit_price_minor + 500
            &&& quantity_milli * unit_price_minor + 500 < 1000 * t + 1000
        }),
{
    let x = quantity_milli * unit_price_minor + 500;
    assert(x >= 0) by (nonlinear_arith)
        requires
            quantity_milli > 0,
            unit_price_minor >= 0,
            x == quantity_milli * unit_price_minor + 500,
    ;
}


/// A sale whose subtotal is computed has every line total computed, and its subtotal is the
/// sum of those line totals: the stored item lines add up to the stored subtotal.
pub proof fn lemma_subtotal_is_sum_of_lines(items: Seq<SaleItem>)
    requires
        subtotal_spec(items) is Ok,
    ensures
        subtotal_spec(items) == Ok::<int, Seq<char>>(lines_sum(items)),
        0 <= lines_sum(items) <= i64::MAX,
        forall|i: int|
            0 <= i < items.len() ==> line_total_spec(
                #[trigger] items[i].quantity_milli,
                items[i].unit_price_minor,
            ) is Ok,
    decreases items.len(),
{
    if items.len() > 0 {
        let init = items.drop_last();
        lemma_subtotal_is_sum_of_lines(init);
        let last = items.last();
        lemma_line_total_rounding(last.quantity_milli, last.unit_price_minor);
        assert(last.quantity_milli * last.unit_price_minor >= 0) by (nonlinear_arith)
            requires
                last.quantity_milli > 0,
                last.unit_price_minor >= 0,
        ;
        assert forall|i: int| 0 <= i < items.len() implies line_total_spec(
            #[trigger] items[i].quantity_milli,
            items[i].unit_price_minor,
        ) is Ok by {
            if i < init.len() {
                assert(items[i] == init[i]);
                assert(line_total_spec(init[i].quantity_milli, init[i].unit_price_minor) is Ok);
            }
        }
    }
}


/// The amounts a completed sale stores, in minor units: its subtotal, discount, tax and
/// total, the amount of its single payment, and the line total of each item, in item order.
#[derive(Debug)]
pub struct SaleAmounts {
    pub subtotal_minor: i64,
    pub discount_minor: i64,
    pub tax_minor: i64,
    pub total_minor: i64,
    pub payment_minor: i64,
    pub line_totals_minor: Vec<i64>,
}

/// The amounts to store for a sale of `items`: no discount and no tax, so the total and the
/// payment both equal the subtotal, which is the sum of the line totals.
pub fn sale_amounts(items: &Vec<SaleItem>) -> (r: Result<SaleAmounts, String>)
    ensures
        match subtotal_spec(items@) {
            Ok(s) => r matches Ok(a) && {
                &&& a.subtotal_minor == s
                &&& a.total_minor == s
                &&& a.payment_minor == s
                &&& a.discount_minor == 0
                &&& a.tax_minor == 0
                &&& s == lines_sum(items@)
                &&& a.line_totals_minor@.len() == items@.len()
                &&& forall|i: int|
                    0 <= i < items@.len() ==> line_total_spec(
                        #[trigger] items@[i].quantity_milli,
                        items@[i].unit_price_minor,
                    ) == Ok::<int, Seq<char>>(a.line_totals_minor@[i] as int)
            },
            Err(m) => r matches Err(x) && x@ == m,
        },
{
    let subtotal = match sale_subtotal_minor(items) {
        Err(m) => {
            return Err(m);
        },
        Ok(s) => s,
    };
    proof {
        lemma_subtotal_is_sum_of_lines(items@);
    }
    let mut lines: Vec<i64> = Vec::new();
    let mut k: usize = 0;
    while k < items.len()
        invariant
            k <= items@.len(),
            lines@.len() == k,
            forall|i: int|
                0 <= i < items@.len() ==> line_total_spec(
                    #[trigger] items@[i].quantity_milli,
                    items@[i].unit_price_minor,
                ) is Ok,
            forall|i: int|
                0 <= i < k ==> line_total_spec(
                    #[trigger] items@[i].quantity_milli,
                    items@[i].unit_price_minor,
                ) == Ok::<int, Seq<char>>(lines@[i] as int),
        decreases items.len() - k,
    {
        assert(line_total_spec(items@[k as int].quantity_milli, items@[k as int].unit_price_minor) is Ok);
        let t = match items[k].line_total_minor() {
            Ok(t) => t,
            Err(_) => 0,
        };
        lines.push(t);
        k = k + 1;
    }
    Ok(
        SaleAmounts {
            subtotal_minor: subtotal,
            discount_minor: 0,
            tax_minor: 0,
            total_minor: subtotal,
            payment_minor: subtotal,
            line_totals_minor: lines,
        },
    )
}

} // verus!
