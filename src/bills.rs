//! Bills read from spreadsheet rows. A row is a sequence of cell texts;
//! column 0 holds the account number, 1 the amount, 2 the due date
//! (month/day/year) and 3 the period code (`MMYYYY`).

use vstd::prelude::*;
use crate::amount::{Amount, amount_of, parse_amount};
use crate::dates::{
    Date,
    due_date_of,
    triple_before,
    dmy_text,
    my_text,
    period_of,
    parse_due_date,
    parse_period,
    is_before,
    format_dmy,
    format_my,
    local_today,
};
use crate::records::Counter;

verus! {

/// One bill to upload.
#[derive(Clone, Debug)]
pub struct Bill {
    pub account_number: String,
    pub amount: Amount,
    /// `DD-MM-YYYY`.
    pub due_date: String,
    /// `MM-YYYY`.
    pub period: String,
}

/// Mathematical form of [`Bill`].
pub struct BillView {
    pub account_number: Seq<char>,
    pub amount: Amount,
    pub due_date: Seq<char>,
    pub period: Seq<char>,
}

impl View for Bill {
    type V = BillView;

    open spec fn view(&self) -> BillView {
        BillView {
            account_number: self.account_number@,
            amount: self.amount,
            due_date: self.due_date@,
            period: self.period@,
        }
    }
}

pub open spec fn zero_amount() -> Amount {
    Amount { mantissa: 0, scale: 0 }
}

impl Bill {
    /// A bill with every field at its zero value.
    pub fn new() -> (r: Bill)
        ensures
            r@ == (BillView {
                account_number: Seq::empty(),
                amount: zero_amount(),
                due_date: Seq::empty(),
                period: Seq::empty(),
            }),
    {
        Bill {
            account_number: String::new(),
            amount: Amount { mantissa: 0, scale: 0 },
            due_date: String::new(),
            period: String::new(),
        }
    }
}

/// Why extraction stopped; `row` is the 0-based position of the row.
#[derive(Clone, Copy, Debug, PartialEq, Eq, Structural)]
pub enum ExtractError {
    MalformedAmount { row: usize },
    MalformedDate { row: usize },
    MalformedPeriod { row: usize },
}

/// How extraction treats rows that do not make a valid bill.
#[derive(Clone, Copy, Debug, PartialEq, Eq, Structural)]
pub enum ExtractionStrategy {
    /// A malformed due date or period code stops extraction with an error;
    /// rows past their due date are left out; the period comes from column 3.
    StrictAbortOnError,
    /// Rows whose due date is malformed, missing or past are left out; the
    /// period is the month of the due date.
    SkipInvalidRows,
}

/// The text of column `c` of a row, empty where the row is shorter.
pub open spec fn cell(row: Seq<Seq<char>>, c: int) -> Seq<char> {
    if 0 <= c < row.len() {
        row[c]
    } else {
        Seq::empty()
    }
}

/// The amount of row `i`: zero where the row has no amount column; a
/// malformed amount is an error under either strategy.
pub open spec fn row_amount(row: Seq<Seq<char>>, i: int) -> Result<Amount, ExtractError> {
    if row.len() > 1 {
        match amount_of(row[1]) {
            Some(a) => Ok(a),
            None => Err(ExtractError::MalformedAmount { row: i as usize }),
        }
    } else {
        Ok(zero_amount())
    }
}

/// What the skipping strategy makes of row `i`: a bill, nothing, or an error.
pub open spec fn lenient_row(row: Seq<Seq<char>>, today: Date, i: int) -> Result<
    Option<BillView>,
    ExtractError,
> {
    match row_amount(row, i) {
        Err(e) => Err(e),
        Ok(a) => {
            let due = if row.len() > 2 {
                due_date_of(row[2])
            } else {
                None
            };
            match due {
                Some(t) => if triple_before(t, today.triple()) {
                    Ok(None)
                } else {
                    Ok(
                        Some(
                            BillView {
                                account_number: cell(row, 0),
                                amount: a,
                                due_date: dmy_text(t),
                                period: my_text(t.1, t.0),
                            },
                        ),
                    )
                },
                None => Ok(None),
            }
        },
    }
}

/// What the strict strategy makes of row `i`: a bill, nothing (past its
/// due date), or the first error among amount, due date and period.
pub open spec fn strict_row(row: Seq<Seq<char>>, today: Date, i: int) -> Result<
    Option<BillView>,
    ExtractError,
> {
    match row_amount(row, i) {
        Err(e) => Err(e),
        Ok(a) => if row.len() > 2 && due_date_of(row[2]) is None {
            Err(ExtractError::MalformedDate { row: i as usize })
        } else if row.len() > 3 && period_of(row[3]) is None {
            Err(ExtractError::MalformedPeriod { row: i as usize })
        } else if row.len() > 2 && triple_before(due_date_of(row[2])->0, today.triple()) {
            Ok(None)
        } else {
            Ok(
                Some(
                    BillView {
                        account_number: cell(row, 0),
                        amount: a,
                        due_date: if row.len() > 2 {
                            dmy_text(due_date_of(row[2])->0)
                        } else {
                            Seq::empty()
                        },
                        period: if row.len() > 3 {
                            period_text(period_of(row[3])->0)
                        } else {
                            Seq::empty()
                        },
                    },
                ),
            )
        },
    }
}

/// A period (month, year) as `MM-YYYY`.
pub open spec fn period_text(p: (int, int)) -> Seq<char> {
    my_text(p.0, p.1)
}

pub open spec fn row_spec(
    strategy: ExtractionStrategy,
    row: Seq<Seq<char>>,
    today: Date,
    i: int,
) -> Result<Option<BillView>, ExtractError> {
    match strategy {
        ExtractionStrategy::StrictAbortOnError => strict_row(row, today, i),
        ExtractionStrategy::SkipInvalidRows => lenient_row(row, today, i),
    }
}

/// The bills that `rows` give on the date `today`, in row order, or the error
/// of the first row that stops extraction.
pub open spec fn extract_spec(
    rows: Seq<Seq<Seq<char>>>,
    today: Date,
    strategy: ExtractionStrategy,
) -> Result<Seq<BillView>, ExtractError>
    decreases rows.len(),
{
    if rows.len() == 0 {
        Ok(Seq::empty())
    } else {
        match extract_spec(rows.drop_last(), today, strategy) {
            Err(e) => Err(e),
            Ok(acc) => match row_spec(strategy, rows.last(), today, rows.len() - 1) {
                Err(e) => Err(e),
                Ok(None) => Ok(acc),
                Ok(Some(b)) => Ok(acc.push(b)),
            },
        }
    }
}

/// An error in the first `j` rows is the error of all rows.
proof fn lemma_error_persists(
    rows: Seq<Seq<Seq<char>>>,
    today: Date,
    strategy: ExtractionStrategy,
    j: int,
)
    requires
        0 <= j <= rows.len(),
        extract_spec(rows.take(j), today, strategy) is Err,
    ensures
        extract_spec(rows, today, strategy) == extract_spec(rows.take(j), today, strategy),
    decreases rows.len(),
{
    if rows.len() == j {
        assert(rows.take(j) =~= rows);
    } else {
        assert(rows.drop_last().take(j) =~= rows.take(j));
        lemma_error_persists(rows.drop_last(), today, strategy, j);
    }
}

pub open spec fn bills_view(v: Seq<Bill>) -> Seq<BillView> {
    v.map_values(|b: Bill| b@)
}

pub open spec fn outcome_view(r: Result<Option<Bill>, ExtractError>) -> Result<
    Option<BillView>,
    ExtractError,
> {
    match r {
        Ok(Some(b)) => Ok(Some(b@)),
        Ok(None) => Ok(None),
        Err(e) => Err(e),
    }
}

/// Reads the amount column of row `index`.
fn read_amount(row: &Vec<String>, index: usize) -> (r: Result<Amount, ExtractError>)
    ensures
        r == row_amount(row.deep_view(), index as int),
{
    if row.len() > 1 {
        match parse_amount(row[1].as_str()) {
            Some(a) => Ok(a),
            None => Err(ExtractError::MalformedAmount { row: index }),
        }
    } else {
        Ok(Amount { mantissa: 0, scale: 0 })
    }
}

/// The text of column 0 of a row.
fn read_account(row: &Vec<String>) -> (r: String)
    ensures
        r@ == cell(row.deep_view(), 0),
{
    if row.len() > 0 {
        row[0].clone()
    } else {
        String::new()
    }
}

/// Makes a bill of one row under the given strategy.
pub fn extract_row(
    row: &Vec<String>,
    today: &Date,
    index: usize,
    strategy: ExtractionStrategy,
) -> (r: Result<Option<Bill>, ExtractError>)
    ensures
        outcome_view(r) == row_spec(strategy, row.deep_view(), *today, index as int),
{
    let ghost rv = row.deep_view();
    let amount = match read_amount(row, index) {
        Ok(a) => a,
        Err(e) => {
            return Err(e);
        },
    };
    match strategy {
        ExtractionStrategy::SkipInvalidRows => {
            if row.len() <= 2 {
                return Ok(None);
            }
            match parse_due_date(row[2].as_str()) {
                None => Ok(None),
                Some(d) => if is_before(&d, today) {
                    Ok(None)
                } else {
                    let bill = Bill {
                        account_number: read_account(row),
                        amount,
                        due_date: format_dmy(&d),
                        period: format_my(d.month, d.year as u32),
                    };
                    Ok(Some(bill))
                },
            }
        },
        ExtractionStrategy::StrictAbortOnError => {
            let mut due: Option<Date> = None;
            if row.len() > 2 {
                match parse_due_date(row[2].as_str()) {
                    None => {
                        return Err(ExtractError::MalformedDate { row: index });
                    },
                    Some(d) => {
                        due = Some(d);
                    },
                }
            }
            let mut period: Option<(u32, u32)> = None;
            if row.len() > 3 {
                match parse_period(row[3].as_str()) {
                    None => {
                        return Err(ExtractError::MalformedPeriod { row: index });
                    },
                    Some(p) => {
                        period = Some(p);
                    },
                }
            }
            let mut bill = Bill::new();
            bill.account_number = read_account(row);
            bill.amount = amount;
            match due {
                Some(d) => {
                    if is_before(&d, today) {
                        return Ok(None);
                    }
                    bill.due_date = format_dmy(&d);
                },
                None => {},
            }
            match period {
                Some(p) => {
                    bill.period = format_my(p.0, p.1);
                },
                None => {},
            }
            Ok(Some(bill))
        },
    }
}

/// Extracts the bills of `rows` as of the date `today`, in row order.
pub fn extract_bills(rows: &Vec<Vec<String>>, today: &Date, strategy: ExtractionStrategy) -> (r:
    Result<Vec<Bill>, ExtractError>)
    ensures
        r matches Ok(v) ==> extract_spec(rows.deep_view(), *today, strategy) == Ok::<
            Seq<BillView>,
            ExtractError,
        >(bills_view(v@)),
        r matches Err(e) ==> extract_spec(rows.deep_view(), *today, strategy) == Err::<
            Seq<BillView>,
            ExtractError,
        >(e),
{
    let ghost all = rows.deep_view();
    let mut out: Vec<Bill> = Vec::new();
    let mut i: usize = 0;
    assert(all.take(0) =~= Seq::<Seq<Seq<char>>>::empty());
    assert(bills_view(out@) =~= Seq::<BillView>::empty());
    while i < rows.len()
        invariant
            all == rows.deep_view(),
            i <= rows.len(),
            extract_spec(all.take(i as int), *today, strategy) == Ok::<
                Seq<BillView>,
                ExtractError,
            >(bills_view(out@)),
        decreases rows.len() - i,
    {
        let outcome = extract_row(&rows[i], today, i, strategy);
        proof {
            assert(all.take(i + 1).drop_last() =~= all.take(i as int));
            assert(all.take(i + 1).last() == rows@[i as int].deep_view());
        }
        match outcome {
            Err(e) => {
                proof {
                    lemma_error_persists(all, *today, strategy, i + 1);
                }
                return Err(e);
            },
            Ok(None) => {},
            Ok(Some(b)) => {
                let ghost before = out@;
                out.push(b);
                assert(bills_view(out@) =~= bills_view(before).push(b@));
            },
        }
        i = i + 1;
    }
    assert(all.take(rows.len() as int) =~= all);
    Ok(out)
}

/// The bills of `rows` under the skipping strategy, as of the current date:
/// only rows due today or later are kept, in row order.
pub fn extract_valid_bills_from(rows: &Vec<Vec<String>>) -> (r: Result<Vec<Bill>, ExtractError>)
    ensures
        exists|today: Date|
            today.wf() && match r {
                Ok(v) => extract_spec(rows.deep_view(), today, ExtractionStrategy::SkipInvalidRows)
                    == Ok::<Seq<BillView>, ExtractError>(bills_view(v@)),
                Err(e) => extract_spec(
                    rows.deep_view(),
                    today,
                    ExtractionStrategy::SkipInvalidRows,
                ) == Err::<Seq<BillView>, ExtractError>(e),
            },
{
    let today = local_today();
    extract_bills(rows, &today, ExtractionStrategy::SkipInvalidRows)
}

/// Under the skipping strategy a row due strictly before `today` gives no
/// bill, and a row due on `today` gives a bill with that due date.
pub proof fn lemma_due_date_window(row: Seq<Seq<char>>, today: Date, i: int, t: (int, int, int))
    requires
        row.len() > 2,
        due_date_of(row[2]) == Some(t),
        row_amount(row, i) is Ok,
    ensures
        triple_before(t, today.triple()) ==> lenient_row(row, today, i) == Ok::<
            Option<BillView>,
            ExtractError,
        >(None),
        t == today.triple() ==> (lenient_row(row, today, i) matches Ok(Some(b)) && b.due_date
            == dmy_text(t)),
{
}

/// A collection of bills.
pub struct Bills {
    items: Vec<Bill>,
    pub grace_period: usize,
}

impl Bills {
    /// The bills held, in order.
    pub closed spec fn bills(&self) -> Seq<BillView> {
        bills_view(self.items@)
    }

    /// The grace period setting.
    pub closed spec fn grace(&self) -> usize {
        self.grace_period
    }

    /// An empty collection.
    pub fn new() -> (r: Bills)
        ensures
            r.bills() == Seq::<BillView>::empty(),
            r.grace() == 0,
    {
        let r = Bills { items: Vec::new(), grace_period: 0 };
        assert(r.bills() =~= Seq::<BillView>::empty());
        r
    }

    /// Appends the bills of `rows` as of `today`; on an error nothing is
    /// appended.
    pub fn extract_as_of(
        &mut self,
        rows: &Vec<Vec<String>>,
        today: &Date,
        strategy: ExtractionStrategy,
    ) -> (r: Result<(), ExtractError>)
        ensures
            final(self).grace() == old(self).grace(),
            r matches Ok(_) ==> extract_spec(rows.deep_view(), *today, strategy) == Ok::<
                Seq<BillView>,
                ExtractError,
            >(final(self).bills().skip(old(self).bills().len() as int)) && final(self).bills().take(old(self).bills().len() as int) == old(self).bills(),
            r matches Err(e) ==> extract_spec(rows.deep_view(), *today, strategy) == Err::<
                Seq<BillView>,
                ExtractError,
            >(e) && final(self).bills() == old(self).bills(),
    {
        match extract_bills(rows, today, strategy) {
            Ok(mut v) => {
                let ghost old_items = self.items@;
                let ghost new_items = v@;
                self.items.append(&mut v);
                assert(self.bills().skip(old_items.len() as int) =~= bills_view(new_items));
                assert(self.bills().take(old_items.len() as int) =~= bills_view(old_items));
                Ok(())
            },
            Err(e) => Err(e),
        }
    }

    /// Appends the bills of `rows` as of the current date; on an error
    /// nothing is appended.
    pub fn extract(&mut self, rows: &Vec<Vec<String>>, strategy: ExtractionStrategy) -> (r:
        Result<(), ExtractError>)
        ensures
            final(self).grace() == old(self).grace(),
            exists|today: Date|
                today.wf() && match r {
                    Ok(_) => extract_spec(rows.deep_view(), today, strategy) == Ok::<
                        Seq<BillView>,
                        ExtractError,
                    >(final(self).bills().skip(old(self).bills().len() as int)) && final(self).bills().take(old(self).bills().len() as int) == old(self).bills(),
                    Err(e) => extract_spec(rows.deep_view(), today, strategy) == Err::<
                        Seq<BillView>,
                        ExtractError,
                    >(e) && final(self).bills() == old(self).bills(),
                },
    {
        let today = local_today();
        self.extract_as_of(rows, &today, strategy)
    }

    /// The bills held, in order.
    pub fn items(&self) -> (r: &Vec<Bill>)
        ensures
            bills_view(r@) == self.bills(),
    {
        &self.items
    }

    /// Gives up the collection as a vector of its bills, in order.
    pub fn into_vec(self) -> (r: Vec<Bill>)
        ensures
            bills_view(r@) == self.bills(),
    {
        self.items
    }
}

impl Counter<Bill> for Bills {
    open spec fn counted(&self) -> nat {
        self.bills().len()
    }

    fn count(&self) -> (r: usize) {
        self.items.len()
    }
}

} // verus!
