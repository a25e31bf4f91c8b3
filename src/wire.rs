//! The upload body: a JSON array of bill objects.

use vstd::prelude::*;
use crate::amount::Amount;
use crate::bills::{Bill, BillView, bills_view};
use crate::dates::{digit_char, push_digit};
use crate::batch::Batch;

verus! {

/// Decimal digits of `n`, most significant first, without leading zeros.
pub open spec fn digits_of(n: nat) -> Seq<char>
    decreases n,
{
    if n < 10 {
        seq![digit_char(n as int)]
    } else {
        digits_of(n / 10).push(digit_char((n % 10) as int))
    }
}

/// The digits of the amount's mantissa, with leading zeros up to at least
/// one more digit than the scale.
pub open spec fn padded_digits(a: Amount) -> Seq<char> {
    let d = digits_of(a.mantissa as nat);
    if d.len() < a.scale + 1 {
        Seq::new((a.scale + 1 - d.len()) as nat, |i: int| '0') + d
    } else {
        d
    }
}

/// An amount as a decimal numeral: `scale` digits after the point, none and
/// no point when the scale is zero.
pub open spec fn amount_text(a: Amount) -> Seq<char> {
    let p = padded_digits(a);
    if a.scale == 0 {
        p
    } else {
        p.take(p.len() - a.scale) + seq!['.'] + p.skip(p.len() - a.scale)
    }
}

pub open spec fn digit_chars(v: Seq<u32>) -> Seq<char> {
    v.map_values(|d: u32| digit_char(d as int))
}

/// The digits of `n`, most significant first, as values below 10.
fn digit_values(n: u64) -> (r: Vec<u32>)
    ensures
        digit_chars(r@) == digits_of(n as nat),
        forall|i: int| 0 <= i < r@.len() ==> #[trigger] r@[i] < 10,
{
    let mut v: Vec<u32> = Vec::new();
    let mut m: u64 = n;
    while m >= 10
        invariant
            digits_of(n as nat) == digits_of(m as nat) + digit_chars(v@),
            forall|i: int| 0 <= i < v@.len() ==> #[trigger] v@[i] < 10,
        decreases m,
    {
        let d = (m % 10) as u32;
        let ghost before = v@;
        v.insert(0, d);
        assert(digit_chars(v@) =~= seq![digit_char(d as int)] + digit_chars(before));
        assert(digits_of(m as nat) == digits_of((m / 10) as nat).push(digit_char(d as int)));
        m = m / 10;
        assert(digits_of(n as nat) =~= digits_of(m as nat) + digit_chars(v@));
    }
    let ghost before = v@;
    v.insert(0, m as u32);
    assert(digit_chars(v@) =~= seq![digit_char(m as int)] + digit_chars(before));
    assert(digit_chars(v@) =~= digits_of(n as nat));
    v
}

/// Writes an amount as a decimal numeral, such as `1234.56`.
pub fn format_amount(a: &Amount) -> (r: String)
    requires
        a.scale < usize::MAX,
    ensures
        r@ == amount_text(*a),
{
    let mut p = digit_values(a.mantissa);
    let ghost d = p@;
    let width = a.scale + 1;
    let mut zeros: usize = 0;
    proof {
        lemma_digits_len_pos(a.mantissa as nat);
    }
    while p.len() < width
        invariant
            width == a.scale + 1,
            zeros <= a.scale + 1,
            zeros > 0 ==> p@.len() <= a.scale + 1 && d.len() < a.scale + 1,
            d.len() >= 1,
            p@.len() == zeros + d.len(),
            p@ == Seq::new(zeros as nat, |i: int| 0u32) + d,
            forall|i: int| 0 <= i < p@.len() ==> #[trigger] p@[i] < 10,
        decreases a.scale + 1 - p@.len(),
    {
        p.insert(0, 0);
        zeros = zeros + 1;
        assert(p@ =~= Seq::new(zeros as nat, |i: int| 0u32) + d);
    }
    assert(digit_chars(p@) =~= padded_digits(*a)) by {
        lemma_digits_len_pos(a.mantissa as nat);
        if digits_of(a.mantissa as nat).len() < a.scale + 1 {
            assert(zeros == a.scale + 1 - d.len());
        } else {
            assert(zeros == 0);
        }
    }
    let ghost pc = digit_chars(p@);
    let cut = p.len() - a.scale;
    let mut s = String::new();
    let mut i: usize = 0;
    while i < p.len()
        invariant
            pc == digit_chars(p@),
            forall|j: int| 0 <= j < p@.len() ==> #[trigger] p@[j] < 10,
            cut == p@.len() - a.scale,
            i <= p@.len(),
            a.scale == 0 ==> s@ == pc.take(i as int),
            a.scale > 0 && i <= cut ==> s@ == pc.take(i as int),
            a.scale > 0 && i > cut ==> s@ == pc.take(cut as int) + seq!['.'] + pc.subrange(
                cut as int,
                i as int,
            ),
        decreases p@.len() - i,
    {
        if a.scale > 0 && i == cut {
            proof {
                reveal_strlit(".");
            }
            s.append(".");
        }
        push_digit(&mut s, p[i]);
        proof {
            if a.scale > 0 && i >= cut {
                assert(pc.subrange(cut as int, i + 1) =~= pc.subrange(cut as int, i as int).push(
                    pc[i as int],
                ));
            } else {
                assert(pc.take(i + 1) =~= pc.take(i as int).push(pc[i as int]));
            }
        }
        i = i + 1;
    }
    assert(pc.take(p@.len() as int) =~= pc);
    assert(pc.subrange(cut as int, p@.len() as int) =~= pc.skip(cut as int));
    s
}

proof fn lemma_digits_len_pos(n: nat)
    ensures
        digits_of(n).len() >= 1,
    decreases n,
{
    if n >= 10 {
        lemma_digits_len_pos(n / 10);
    }
}

/// What `serde_json::to_string` gives for the text `s`: its JSON string
/// literal.
pub uninterp spec fn json_string(s: Seq<char>) -> Seq<char>;

/// Relies on `serde_json::to_string` applied to a `str`: the quoted and
/// escaped JSON string literal of `s`. Serializing a `str` into memory does
/// not fail.
#[verifier::external_body]
fn quote_json(s: &str) -> (r: String)
    ensures
        r@ == json_string(s@),
{
    match serde_json::to_string(s) {
        Ok(t) => t,
        Err(_) => String::new(),
    }
}

/// One bill as a JSON object with the fields `account_number`, `amount`,
/// `due_date` and `period`, in that order.
pub open spec fn bill_json(b: BillView) -> Seq<char> {
    "{\"account_number\":"@ + json_string(b.account_number) + ",\"amount\":"@ + amount_text(
        b.amount,
    ) + ",\"due_date\":"@ + json_string(b.due_date) + ",\"period\":"@ + json_string(b.period)
        + "}"@
}

/// The objects of `bs`, separated by commas.
pub open spec fn joined_json(bs: Seq<BillView>) -> Seq<char>
    decreases bs.len(),
{
    if bs.len() == 0 {
        Seq::empty()
    } else if bs.len() == 1 {
        bill_json(bs[0])
    } else {
        joined_json(bs.drop_last()) + ","@ + bill_json(bs.last())
    }
}

/// A batch of bills as a JSON array.
pub open spec fn batch_json(bs: Seq<BillView>) -> Seq<char> {
    "["@ + joined_json(bs) + "]"@
}

/// Writes one bill as a JSON object.
pub fn encode_bill(b: &Bill) -> (r: String)
    requires
        b.amount.scale < usize::MAX,
    ensures
        r@ == bill_json(b@),
{
    let mut s = String::new();
    s.append("{\"account_number\":");
    s.append(quote_json(b.account_number.as_str()).as_str());
    s.append(",\"amount\":");
    s.append(format_amount(&b.amount).as_str());
    s.append(",\"due_date\":");
    s.append(quote_json(b.due_date.as_str()).as_str());
    s.append(",\"period\":");
    s.append(quote_json(b.period.as_str()).as_str());
    s.append("}");
    assert(s@ =~= bill_json(b@));
    s
}

/// Writes the bills of one batch as the JSON array sent to the server.
pub fn encode_batch(bills: &Vec<Bill>, batch: &Batch) -> (r: String)
    requires
        batch.start <= batch.end <= bills@.len(),
        forall|i: int| 0 <= i < bills@.len() ==> #[trigger] bills@[i].amount.scale < usize::MAX,
    ensures
        r@ == batch_json(bills_view(bills@).subrange(batch.start as int, batch.end as int)),
{
    let ghost all = bills_view(bills@);
    let mut s = String::new();
    s.append("[");
    let mut i: usize = batch.start;
    while i < batch.end
        invariant
            all == bills_view(bills@),
            batch.start <= i <= batch.end <= bills@.len(),
            forall|j: int| 0 <= j < bills@.len() ==> #[trigger] bills@[j].amount.scale < usize::MAX,
            s@ == "["@ + joined_json(all.subrange(batch.start as int, i as int)),
        decreases batch.end - i,
    {
        let ghost sub = all.subrange(batch.start as int, i + 1);
        assert(sub.drop_last() =~= all.subrange(batch.start as int, i as int));
        assert(sub.last() == bills@[i as int]@);
        if i > batch.start {
            s.append(",");
        } else {
            assert(sub =~= seq![bills@[i as int]@]);
        }
        let text = encode_bill(&bills[i]);
        s.append(text.as_str());
        i = i + 1;
        assert(s@ =~= "["@ + joined_json(all.subrange(batch.start as int, i as int)));
    }
    s.append("]");
    s
}

} // verus!
