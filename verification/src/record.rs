//! The records of the two resources, and what the rest of the crate needs
//! to know of a record: its id.

use vstd::prelude::*;

verus! {

/// A record of a resource: a row of its table.
///
/// A record carries an optional id. The id is absent while the record is
/// only a submission, and present on every stored row. The contracts of the
/// crate speak of a record through its view; this trait says how the id is
/// read from a view and how a view is given another id.
pub trait Record: View + Sized {
    /// The id that a row carries.
    spec fn key(row: Self::V) -> Option<i32>;

    /// The row with its id replaced, and nothing else changed.
    spec fn rekeyed(row: Self::V, id: Option<i32>) -> Self::V;

    /// Replacing the id sets the id, forgets the id that was there before,
    /// and changes nothing when the id is the row's own.
    proof fn rekeyed_laws(row: Self::V, a: Option<i32>, b: Option<i32>)
        ensures
            Self::key(Self::rekeyed(row, a)) == a,
            Self::rekeyed(Self::rekeyed(row, a), b) == Self::rekeyed(row, b),
            Self::rekeyed(row, Self::key(row)) == row,
    ;

    /// The record's id.
    fn id(&self) -> (id: Option<i32>)
        ensures
            id == Self::key(self@),
    ;

    /// A copy of the record that carries `id`.
    fn with_id(&self, id: Option<i32>) -> (copy: Self)
        ensures
            copy@ == Self::rekeyed(self@, id),
    ;
}

/// Whether two rows hold the same content, whatever their ids.
pub open spec fn same_content<R: Record>(a: R::V, b: R::V) -> bool {
    R::rekeyed(a, None) == R::rekeyed(b, None)
}

/// Whether a year has a 29th of February.
pub open spec fn is_leap(year: int) -> bool {
    year % 4 == 0 && (year % 100 != 0 || year % 400 == 0)
}

/// The number of days of a month.
pub open spec fn days_in(year: int, month: int) -> int {
    if month == 2 {
        if is_leap(year) {
            29
        } else {
            28
        }
    } else if month == 4 || month == 6 || month == 9 || month == 11 {
        30
    } else {
        31
    }
}

/// Whether the three numbers name a day of the calendar, in a year that is
/// written with four digits.
pub open spec fn is_day(year: int, month: int, day: int) -> bool {
    &&& 0 <= year <= 9999
    &&& 1 <= month <= 12
    &&& 1 <= day <= days_in(year, month)
}

/// What a [`Date`] holds.
pub struct DateView {
    pub year: int,
    pub month: int,
    pub day: int,
}

impl DateView {
    /// Whether this is a day of the calendar.
    pub open spec fn wf(self) -> bool {
        is_day(self.year, self.month, self.day)
    }
}

/// A day of the calendar. There is no date but one that names a day.
#[derive(Clone, Copy, Debug, PartialEq, Eq, Structural)]
pub struct Date {
    year: i32,
    month: u32,
    day: u32,
}

impl View for Date {
    type V = DateView;

    closed spec fn view(&self) -> DateView {
        DateView { year: self.year as int, month: self.month as int, day: self.day as int }
    }
}

impl Date {
    #[verifier::type_invariant]
    spec fn inv(self) -> bool {
        self@.wf()
    }

    /// The date that the three numbers name, if they name a day.
    pub fn new(year: i32, month: u32, day: u32) -> (date: Option<Date>)
        ensures
            date is Some <==> is_day(year as int, month as int, day as int),
            date is Some ==> date->0@ == (DateView {
                year: year as int,
                month: month as int,
                day: day as int,
            }),
    {
        if year < 0 || year > 9999 || month < 1 || month > 12 || day < 1 {
            return None;
        }
        let leap = year % 4 == 0 && (year % 100 != 0 || year % 400 == 0);
        let days: u32 = if month == 2 {
            if leap {
                29
            } else {
                28
            }
        } else if month == 4 || month == 6 || month == 9 || month == 11 {
            30
        } else {
            31
        };
        if day > days {
            return None;
        }
        Some(Date { year, month, day })
    }

    /// The year, from 0 to 9999.
    pub fn year(&self) -> (year: i32)
        ensures
            year == self@.year,
            self@.wf(),
    {
        proof {
            use_type_invariant(self);
        }
        self.year
    }

    /// The month, from 1 to 12.
    pub fn month(&self) -> (month: u32)
        ensures
            month == self@.month,
            self@.wf(),
    {
        proof {
            use_type_invariant(self);
        }
        self.month
    }

    /// The day of the month, from 1 on.
    pub fn day(&self) -> (day: u32)
        ensures
            day == self@.day,
            self@.wf(),
    {
        proof {
            use_type_invariant(self);
        }
        self.day
    }
}

/// A user.
#[derive(Clone, Debug, PartialEq, Eq)]
pub struct User {
    pub id: Option<i32>,
    pub name: String,
}

/// What a [`User`] holds.
pub struct UserView {
    pub id: Option<i32>,
    pub name: Seq<char>,
}

impl View for User {
    type V = UserView;

    open spec fn view(&self) -> UserView {
        UserView { id: self.id, name: self.name@ }
    }
}

impl Record for User {
    open spec fn key(row: UserView) -> Option<i32> {
        row.id
    }

    open spec fn rekeyed(row: UserView, id: Option<i32>) -> UserView {
        UserView { id, ..row }
    }

    proof fn rekeyed_laws(row: UserView, a: Option<i32>, b: Option<i32>) {
    }

    fn id(&self) -> (id: Option<i32>) {
        self.id
    }

    fn with_id(&self, id: Option<i32>) -> (copy: User) {
        User { id, name: self.name.clone() }
    }
}

/// An item, which a user may own.
#[derive(Clone, Debug, PartialEq, Eq)]
pub struct Item {
    pub id: Option<i32>,
    pub name: String,
    /// The id of the owning user. Nothing checks that such a user exists.
    pub user_id: Option<i32>,
    pub sell_price_cents: Option<i32>,
    pub buy_price_cents: Option<i32>,
    pub buy_date: Date,
    pub sell_date: Date,
}

/// What an [`Item`] holds.
pub struct ItemView {
    pub id: Option<i32>,
    pub name: Seq<char>,
    pub user_id: Option<i32>,
    pub sell_price_cents: Option<i32>,
    pub buy_price_cents: Option<i32>,
    pub buy_date: DateView,
    pub sell_date: DateView,
}

impl View for Item {
    type V = ItemView;

    open spec fn view(&self) -> ItemView {
        ItemView {
            id: self.id,
            name: self.name@,
            user_id: self.user_id,
            sell_price_cents: self.sell_price_cents,
            buy_price_cents: self.buy_price_cents,
            buy_date: self.buy_date@,
            sell_date: self.sell_date@,
        }
    }
}

impl Record for Item {
    open spec fn key(row: ItemView) -> Option<i32> {
        row.id
    }

    open spec fn rekeyed(row: ItemView, id: Option<i32>) -> ItemView {
        ItemView { id, ..row }
    }

    proof fn rekeyed_laws(row: ItemView, a: Option<i32>, b: Option<i32>) {
    }

    fn id(&self) -> (id: Option<i32>) {
        self.id
    }

    fn with_id(&self, id: Option<i32>) -> (copy: Item) {
        Item {
            id,
            name: self.name.clone(),
            user_id: self.user_id,
            sell_price_cents: self.sell_price_cents,
            buy_price_cents: self.buy_price_cents,
            buy_date: self.buy_date,
            sell_date: self.sell_date,
        }
    }
}

} // verus!
