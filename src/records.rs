//! Accounts, payments and the credentials used to obtain an upload token.

use vstd::prelude::*;

verus! {

/// A collection that can report how many records it holds.
pub trait Counter<T> {
    /// The number of records held.
    spec fn counted(&self) -> nat;

    fn count(&self) -> (r: usize)
        ensures
            r == self.counted(),
    ;
}

/// The text of the first cell of a row, empty for an empty row.
pub open spec fn first_cell(row: Seq<Seq<char>>) -> Seq<char> {
    if row.len() > 0 {
        row[0]
    } else {
        Seq::empty()
    }
}

/// Copies the first cell of a row.
fn read_first_cell(row: &Vec<String>) -> (r: String)
    ensures
        r@ == first_cell(row.deep_view()),
{
    if row.len() > 0 {
        row[0].clone()
    } else {
        String::new()
    }
}

/// An account, identified by the first column of its row.
#[derive(Clone, Debug)]
pub struct Account {
    pub id: String,
}

/// A collection of accounts.
pub struct Accounts {
    items: Vec<Account>,
}

impl Accounts {
    /// The ids of the accounts held, in order.
    pub closed spec fn ids(&self) -> Seq<Seq<char>> {
        self.items@.map_values(|a: Account| a.id@)
    }

    /// An empty collection.
    pub fn new() -> (r: Accounts)
        ensures
            r.ids() == Seq::<Seq<char>>::empty(),
    {
        let r = Accounts { items: Vec::new() };
        assert(r.ids() =~= Seq::<Seq<char>>::empty());
        r
    }

    /// Appends one account per row, in row order, its id taken from the
    /// row's first cell (empty for an empty row).
    pub fn extract(&mut self, rows: &Vec<Vec<String>>)
        ensures
            final(self).ids() == old(self).ids() + rows.deep_view().map_values(
                |row: Seq<Seq<char>>| first_cell(row),
            ),
    {
        let ghost start = self.ids();
        let mut i: usize = 0;
        while i < rows.len()
            invariant
                i <= rows.len(),
                self.ids() == start + rows.deep_view().take(i as int).map_values(
                    |row: Seq<Seq<char>>| first_cell(row),
                ),
            decreases rows.len() - i,
        {
            let ghost before = self.ids();
            let id = read_first_cell(&rows[i]);
            let ghost text = id@;
            self.items.push(Account { id });
            proof {
                let f = |row: Seq<Seq<char>>| first_cell(row);
                let dv = rows.deep_view();
                assert(dv[i as int] == rows@[i as int].deep_view());
                assert(dv.take(i + 1).map_values(f) =~= dv.take(i as int).map_values(f).push(
                    text,
                ));
                assert(self.ids() =~= before.push(text));
            }
            i = i + 1;
        }
        assert(rows.deep_view().take(rows.len() as int) =~= rows.deep_view());
    }

    /// Gives up the collection as a vector of its accounts, in order.
    pub fn into_vec(self) -> (r: Vec<Account>)
        ensures
            r@.map_values(|a: Account| a.id@) == self.ids(),
    {
        self.items
    }
}

impl Counter<Account> for Accounts {
    open spec fn counted(&self) -> nat {
        self.ids().len()
    }

    fn count(&self) -> (r: usize) {
        self.items.len()
    }
}

/// A payment; only the pin is read from the sheet.
#[derive(Clone, Debug)]
pub struct Payment {
    pub pin: String,
    pub or_date: String,
    pub or_number: String,
    pub pin_hash: String,
}

impl Payment {
    /// A payment with every field empty.
    pub fn new() -> (r: Payment)
        ensures
            r.pin@ == Seq::<char>::empty(),
            r.or_date@ == Seq::<char>::empty(),
            r.or_number@ == Seq::<char>::empty(),
            r.pin_hash@ == Seq::<char>::empty(),
    {
        Payment {
            pin: String::new(),
            or_date: String::new(),
            or_number: String::new(),
            pin_hash: String::new(),
        }
    }
}

/// A collection of payments.
pub struct Payments {
    items: Vec<Payment>,
}

impl Payments {
    /// The pins of the payments held, in order.
    pub closed spec fn pins(&self) -> Seq<Seq<char>> {
        self.items@.map_values(|p: Payment| p.pin@)
    }

    /// Every other field of every payment held is empty.
    pub closed spec fn rest_empty(&self) -> bool {
        forall|i: int|
            0 <= i < self.items@.len() ==> #[trigger] self.items@[i].or_date@.len() == 0
                && self.items@[i].or_number@.len() == 0 && self.items@[i].pin_hash@.len() == 0
    }

    /// An empty collection.
    pub fn new() -> (r: Payments)
        ensures
            r.pins() == Seq::<Seq<char>>::empty(),
            r.rest_empty(),
    {
        let r = Payments { items: Vec::new() };
        assert(r.pins() =~= Seq::<Seq<char>>::empty());
        r
    }

    /// Appends one payment per row, in row order, its pin taken from the
    /// row's first cell and its other fields empty.
    pub fn extract(&mut self, rows: &Vec<Vec<String>>)
        requires
            old(self).rest_empty(),
        ensures
            final(self).pins() == old(self).pins() + rows.deep_view().map_values(
                |row: Seq<Seq<char>>| first_cell(row),
            ),
            final(self).rest_empty(),
    {
        let ghost start = self.pins();
        let mut i: usize = 0;
        while i < rows.len()
            invariant
                i <= rows.len(),
                self.rest_empty(),
                self.pins() == start + rows.deep_view().take(i as int).map_values(
                    |row: Seq<Seq<char>>| first_cell(row),
                ),
            decreases rows.len() - i,
        {
            let ghost before = self.pins();
            let mut p = Payment::new();
            p.pin = read_first_cell(&rows[i]);
            let ghost text = p.pin@;
            self.items.push(p);
            proof {
                let f = |row: Seq<Seq<char>>| first_cell(row);
                let dv = rows.deep_view();
                assert(dv[i as int] == rows@[i as int].deep_view());
                assert(dv.take(i + 1).map_values(f) =~= dv.take(i as int).map_values(f).push(
                    text,
                ));
                assert(self.pins() =~= before.push(text));
            }
            i = i + 1;
        }
        assert(rows.deep_view().take(rows.len() as int) =~= rows.deep_view());
    }

    /// Gives up the collection as a vector of its payments, in order.
    pub fn into_vec(self) -> (r: Vec<Payment>)
        ensures
            r@.map_values(|p: Payment| p.pin@) == self.pins(),
    {
        self.items
    }
}

impl Counter<Payment> for Payments {
    open spec fn counted(&self) -> nat {
        self.pins().len()
    }

    fn count(&self) -> (r: usize) {
        self.items.len()
    }
}

/// OAuth2 client credentials.
pub struct Credentials {
    pub client_id: String,
    pub client_secret: String,
    pub grant_type: String,
}

} // verus!
