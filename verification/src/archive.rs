//! The archive of a site: its posts, grouped by the day they were written.

use crate::item::Book;
use crate::page::{Item, PostLink, PostLinkView, link_to};
use crate::serial::Timestamp;
use crate::text::{decimal, decimal_text, first_occurrences};
use vstd::prelude::*;
use vstd::string::*;

verus! {

/// In which direction an archive runs through time.
#[derive(Debug, Clone, Copy, PartialEq, Eq, Structural)]
pub enum Order {
    OldFirst,
    NewFirst,
}

/// A year of the common era.
#[derive(Debug, Clone, Copy, PartialEq, Eq, Hash, Structural)]
pub struct Year {
    raw: u32,
}

/// A month of the year, counted from 1.
#[derive(Debug, Clone, Copy, PartialEq, Eq, Hash, Structural)]
pub struct Month {
    raw: u8,
}

/// A day of the month, counted from 1.
#[derive(Debug, Clone, Copy, PartialEq, Eq, Hash, Structural)]
pub struct Day {
    raw: u8,
}

/// A number that is no day of any month.
#[derive(Debug, Clone, Copy, PartialEq, Eq, Structural)]
pub struct BadDay {
    pub raw: u32,
}

/// Why an archive cannot be made.
#[derive(Debug, Clone, Copy, PartialEq, Eq, Structural)]
pub enum Error {
    BadMonth { raw: u32 },
    BadDay { source: BadDay },
}

impl Year {
    pub closed spec fn number(self) -> int {
        self.raw as int
    }

    pub fn from(value: u32) -> (year: Year)
        ensures
            year.number() == value,
    {
        Year { raw: value }
    }

    pub fn raw(&self) -> (raw: u32)
        ensures
            raw == self.number(),
    {
        self.raw
    }
}

impl Month {
    #[verifier::type_invariant]
    spec fn in_range(self) -> bool {
        1 <= self.raw <= 12
    }

    pub closed spec fn number(self) -> int {
        self.raw as int
    }

    /// The month with a given number: there is one for 1 to 12.
    pub fn try_from(value: u32) -> (result: Result<Month, Error>)
        ensures
            1 <= value <= 12 ==> result is Ok && result->Ok_0.number() == value,
            !(1 <= value <= 12) ==> result == Err::<Month, Error>(Error::BadMonth { raw: value }),
    {
        if 1 <= value && value <= 12 {
            Ok(Month { raw: value as u8 })
        } else {
            Err(Error::BadMonth { raw: value })
        }
    }

    pub fn raw(&self) -> (raw: u8)
        ensures
            raw == self.number(),
            1 <= raw <= 12,
    {
        proof {
            use_type_invariant(self);
        }
        self.raw
    }
}

impl Day {
    #[verifier::type_invariant]
    spec fn in_range(self) -> bool {
        1 <= self.raw <= 31
    }

    pub closed spec fn number(self) -> int {
        self.raw as int
    }

    /// The day with a given number: there is one for 1 to 31.
    pub fn try_from(value: u32) -> (result: Result<Day, BadDay>)
        ensures
            1 <= value <= 31 ==> result is Ok && result->Ok_0.number() == value,
            !(1 <= value <= 31) ==> result is Err && result->Err_0.number() == value,
    {
        if 1 <= value && value <= 31 {
            Ok(Day { raw: value as u8 })
        } else {
            Err(BadDay { raw: value })
        }
    }

    pub fn raw(&self) -> (raw: u8)
        ensures
            raw == self.number(),
            1 <= raw <= 31,
    {
        proof {
            use_type_invariant(self);
        }
        self.raw
    }
}

impl BadDay {
    pub open spec fn number(self) -> int {
        self.raw as int
    }

    pub fn raw(&self) -> (raw: u32)
        ensures
            raw == self.number(),
    {
        self.raw
    }

    /// Says what is wrong with the number.
    pub fn describe(&self) -> (text: String)
        ensures
            text@ == "nonsense day value: '"@ + decimal(self.number() as nat) + "'"@,
    {
        let mut text = String::from_str("nonsense day value: '");
        text.append(decimal_text(self.raw as u64).as_str());
        text.append("'");
        text
    }
}

pub open spec fn error_text(error: Error) -> Seq<char> {
    match error {
        Error::BadMonth { raw } => "nonsense month value: '"@ + decimal(raw as nat),
        Error::BadDay { source } => "nonsense day value: '"@ + decimal(source.number() as nat)
            + "'"@,
    }
}

impl Error {
    /// Says why the archive cannot be made.
    pub fn describe(&self) -> (text: String)
        ensures
            text@ == error_text(*self),
    {
        match self {
            Error::BadMonth { raw } => {
                let mut text = String::from_str("nonsense month value: '");
                text.append(decimal_text(*raw as u64).as_str());
                text
            },
            Error::BadDay { source } => source.describe(),
        }
    }
}

/// A day of the calendar.
pub struct Date {
    pub year: int,
    pub month: int,
    pub day: int,
}

/// Whether a day of the calendar lies before another.
pub open spec fn earlier(first: Date, second: Date) -> bool {
    first.year < second.year || (first.year == second.year && (first.month < second.month || (
    first.month == second.month && first.day < second.day)))
}

/// Whether a day stands before another in an archive that runs in a given
/// direction.
pub open spec fn stands_before(first: Date, second: Date, order: Order) -> bool {
    match order {
        Order::OldFirst => earlier(first, second),
        Order::NewFirst => earlier(second, first),
    }
}

/// The day on which something was written.
pub open spec fn date_of(at: Timestamp) -> Date {
    Date { year: at.year as int, month: at.month as int, day: at.day as int }
}

/// What is wrong with a date, if anything is: its month is none of the
/// twelve, or else its day is none of the thirty-one.
pub open spec fn date_error(at: Timestamp) -> Option<Error> {
    if !(1 <= at.month <= 12) {
        Some(Error::BadMonth { raw: at.month })
    } else if !(1 <= at.day <= 31) {
        Some(Error::BadDay { source: BadDay { raw: at.day } })
    } else {
        None
    }
}

/// What is wrong with the date of the first post that has a bad date.
pub open spec fn first_error(items: Seq<Item>) -> Option<Error>
    decreases items.len(),
{
    if items.len() == 0 {
        None
    } else {
        match first_error(items.drop_last()) {
            Some(error) => Some(error),
            None => match items.last() {
                Item::Post(post) => date_error(post.date),
                Item::Page(_) => None,
            },
        }
    }
}

/// The links to the posts of a day, in the order in which the posts were
/// handed in. Pages have no date and are passed over.
pub open spec fn links_on(items: Seq<Item>, date: Date) -> Seq<PostLinkView>
    decreases items.len(),
{
    if items.len() == 0 {
        Seq::empty()
    } else {
        let before = links_on(items.drop_last(), date);
        match items.last() {
            Item::Post(post) => if date_of(post.date) == date {
                before.push(link_to(post.page.data))
            } else {
                before
            },
            Item::Page(_) => before,
        }
    }
}

/// The items that a list of references points to.
pub open spec fn pointed<'a, 's>(picked: Seq<&'a Item<'s>>) -> Seq<Item<'s>> {
    picked.map_values(|item: &Item<'s>| *item)
}

/// The posts of one day.
#[derive(Debug, Clone, PartialEq, Eq)]
pub struct DayBucket {
    year: Year,
    month: Month,
    day: Day,
    posts: Vec<PostLink>,
}

pub struct DayBucketView {
    pub date: Date,
    pub posts: Seq<PostLinkView>,
}

/// The links of a list, as plain text.
pub open spec fn link_views(posts: Seq<PostLink>) -> Seq<PostLinkView> {
    posts.map_values(|link: PostLink| link@)
}

impl View for DayBucket {
    type V = DayBucketView;

    closed spec fn view(&self) -> DayBucketView {
        DayBucketView {
            date: Date {
                year: self.year.number(),
                month: self.month.number(),
                day: self.day.number(),
            },
            posts: link_views(self.posts@),
        }
    }
}

impl DayBucket {
    pub fn year(&self) -> (year: Year)
        ensures
            year.number() == self@.date.year,
    {
        self.year
    }

    pub fn month(&self) -> (month: Month)
        ensures
            month.number() == self@.date.month,
    {
        self.month
    }

    pub fn day(&self) -> (day: Day)
        ensures
            day.number() == self@.date.day,
    {
        self.day
    }

    pub fn posts(&self) -> (posts: &Vec<PostLink>)
        ensures
            link_views(posts@) == self@.posts,
    {
        &self.posts
    }
}

/// The posts of a site by year, month and day.
#[derive(Debug, Clone, PartialEq, Eq)]
pub struct Archive {
    days: Vec<DayBucket>,
}

/// The buckets of a list, as plain values.
pub open spec fn bucket_views(days: Seq<DayBucket>) -> Seq<DayBucketView> {
    days.map_values(|bucket: DayBucket| bucket@)
}

impl View for Archive {
    type V = Seq<DayBucketView>;

    closed spec fn view(&self) -> Seq<DayBucketView> {
        bucket_views(self.days@)
    }
}

/// Whether the days of an archive stand in calendar order, in the
/// archive's direction, and none of them twice.
pub open spec fn in_order(days: Seq<DayBucketView>, order: Order) -> bool {
    forall|i: int, j: int|
        0 <= i < j < days.len() ==> stands_before(
            (#[trigger] days[i]).date,
            (#[trigger] days[j]).date,
            order,
        )
}

/// Whether the days of an archive hold the posts of a list of items: each
/// day holds the links to the posts of that day, in the order in which the
/// posts were handed in and each link once; no day is empty; and every day
/// on which a post was written is there.
pub open spec fn holds_posts(days: Seq<DayBucketView>, items: Seq<Item>) -> bool {
    &&& forall|i: int|
        0 <= i < days.len() ==> (#[trigger] days[i]).posts == first_occurrences(
            links_on(items, days[i].date),
        ) && days[i].posts.len() > 0
    &&& forall|date: Date|
        (#[trigger] links_on(items, date)).len() > 0 ==> exists|i: int|
            0 <= i < days.len() && (#[trigger] days[i]).date == date
}

spec fn ordered(days: Seq<DayBucket>, order: Order) -> bool {
    forall|i: int, j: int|
        0 <= i < j < days.len() ==> stands_before(
            (#[trigger] days[i])@.date,
            (#[trigger] days[j])@.date,
            order,
        )
}

spec fn grouped(days: Seq<DayBucket>, items: Seq<Item>) -> bool {
    &&& forall|i: int|
        0 <= i < days.len() ==> (#[trigger] days[i])@.posts == first_occurrences(
            links_on(items, days[i]@.date),
        ) && days[i]@.posts.len() > 0
    &&& forall|date: Date|
        (#[trigger] links_on(items, date)).len() > 0 ==> exists|i: int|
            0 <= i < days.len() && (#[trigger] days[i])@.date == date
}

/// How a list of days changes when a link is added on a date: the day of
/// that date takes the link, unless it has it, and where no day has that
/// date a new one stands at `at` with the link alone.
spec fn added(
    before: Seq<DayBucket>,
    after: Seq<DayBucket>,
    date: Date,
    link: PostLinkView,
    at: int,
    fresh: bool,
) -> bool {
    if fresh {
        &&& 0 <= at <= before.len()
        &&& after.len() == before.len() + 1
        &&& forall|j: int| 0 <= j < before.len() ==> (#[trigger] before[j])@.date != date
        &&& after[at]@ == (DayBucketView { date, posts: seq![link] })
        &&& forall|j: int| 0 <= j < at ==> (#[trigger] after[j]) == before[j]
        &&& forall|j: int| at <= j < before.len() ==> (#[trigger] after[j + 1]) == before[j]
    } else {
        &&& 0 <= at < before.len()
        &&& after.len() == before.len()
        &&& before[at]@.date == date
        &&& after[at]@.date == date
        &&& after[at]@.posts == if before[at]@.posts.contains(link) {
            before[at]@.posts
        } else {
            before[at]@.posts.push(link)
        }
        &&& forall|j: int| 0 <= j < before.len() && j != at ==> (#[trigger] after[j]) == before[j]
    }
}

proof fn days_differ(days: Seq<DayBucket>, order: Order, i: int, j: int)
    requires
        ordered(days, order),
        0 <= i < days.len(),
        0 <= j < days.len(),
        i != j,
    ensures
        days[i]@.date != days[j]@.date,
{
    if i < j {
        assert(stands_before(days[i]@.date, days[j]@.date, order));
    } else {
        assert(stands_before(days[j]@.date, days[i]@.date, order));
    }
}

/// The days still hold the posts once a post has been added to the items
/// and its link to the days.
proof fn grouped_after_post(
    before: Seq<DayBucket>,
    after: Seq<DayBucket>,
    order: Order,
    items: Seq<Item>,
    date: Date,
    link: PostLinkView,
    at: int,
    fresh: bool,
)
    requires
        items.len() > 0,
        items.last() matches Item::Post(post) && date_of(post.date) == date && link_to(
            post.page.data,
        ) == link,
        ordered(before, order),
        grouped(before, items.drop_last()),
        added(before, after, date, link, at, fresh),
    ensures
        grouped(after, items),
{
    let earlier_items = items.drop_last();
    assert forall|other: Date| #![trigger links_on(items, other)]
        links_on(items, other) == if other == date {
            links_on(earlier_items, other).push(link)
        } else {
            links_on(earlier_items, other)
        } by {}
    assert(links_on(earlier_items, date).push(link).drop_last() =~= links_on(
        earlier_items,
        date,
    ));
    if fresh {
        if links_on(earlier_items, date).len() > 0 {
            let i = choose|i: int| 0 <= i < before.len() && (#[trigger] before[i])@.date == date;
            assert(false);
        }
        assert(links_on(earlier_items, date) =~= Seq::empty());
        assert(first_occurrences(links_on(earlier_items, date)) =~= Seq::empty());
        assert(first_occurrences(links_on(items, date)) =~= seq![link]);
        assert forall|i: int| 0 <= i < after.len() implies (#[trigger] after[i])@.posts
            == first_occurrences(links_on(items, after[i]@.date)) && after[i]@.posts.len()
            > 0 by {
            if i < at {
                assert(after[i] == before[i]);
            } else if i > at {
                assert(after[(i - 1) + 1] == before[i - 1]);
            }
        }
        assert forall|other: Date| (#[trigger] links_on(items, other)).len() > 0 implies exists|
            i: int,
        |
            0 <= i < after.len() && (#[trigger] after[i])@.date == other by {
            if other == date {
                assert(after[at]@.date == other);
            } else {
                let i = choose|i: int|
                    0 <= i < before.len() && (#[trigger] before[i])@.date == other;
                if i < at {
                    assert(after[i] == before[i]);
                } else {
                    assert(after[i + 1] == before[i]);
                }
            }
        }
    } else {
        assert forall|i: int| 0 <= i < after.len() implies (#[trigger] after[i])@.posts
            == first_occurrences(links_on(items, after[i]@.date)) && after[i]@.posts.len()
            > 0 by {
            if i != at {
                assert(after[i] == before[i]);
                days_differ(before, order, i, at);
            }
        }
        assert forall|other: Date| (#[trigger] links_on(items, other)).len() > 0 implies exists|
            i: int,
        |
            0 <= i < after.len() && (#[trigger] after[i])@.date == other by {
            if other == date {
                assert(after[at]@.date == other);
            } else {
                let i = choose|i: int|
                    0 <= i < before.len() && (#[trigger] before[i])@.date == other;
                if i != at {
                    assert(after[i] == before[i]);
                }
            }
        }
    }
}

/// The days still hold the posts once a page has been added to the items.
proof fn grouped_after_page(days: Seq<DayBucket>, items: Seq<Item>)
    requires
        items.len() > 0,
        items.last() is Page,
        grouped(days, items.drop_last()),
    ensures
        grouped(days, items),
{
    assert forall|other: Date| #![trigger links_on(items, other)]
        links_on(items, other) == links_on(items.drop_last(), other) by {}
}

fn is_before(first: &DayBucket, year: Year, month: Month, day: Day, order: Order) -> (result: bool)
    ensures
        result == stands_before(
            first@.date,
            Date { year: year.number(), month: month.number(), day: day.number() },
            order,
        ),
{
    match order {
        Order::OldFirst => first.year.raw < year.raw || (first.year.raw == year.raw && (
        first.month.raw < month.raw || (first.month.raw == month.raw && first.day.raw
            < day.raw))),
        Order::NewFirst => year.raw < first.year.raw || (year.raw == first.year.raw && (month.raw
            < first.month.raw || (month.raw == first.month.raw && day.raw < first.day.raw))),
    }
}

fn is_on(bucket: &DayBucket, year: Year, month: Month, day: Day) -> (result: bool)
    ensures
        result == (bucket@.date == Date {
            year: year.number(),
            month: month.number(),
            day: day.number(),
        }),
{
    bucket.year.raw == year.raw && bucket.month.raw == month.raw && bucket.day.raw == day.raw
}

fn has_link(posts: &Vec<PostLink>, link: &PostLink) -> (result: bool)
    ensures
        result == link_views(posts@).contains(link@),
{
    let mut i: usize = 0;
    while i < posts.len()
        invariant
            i <= posts.len(),
            forall|j: int| 0 <= j < i ==> link_views(posts@)[j] != link@,
        decreases posts.len() - i,
    {
        if posts[i].same(link) {
            assert(link_views(posts@)[i as int] == link@);
            return true;
        }
        i += 1;
    }
    false
}

/// Adds a link on a date to the days of an archive.
fn file_link(
    days: &mut Vec<DayBucket>,
    order: Order,
    year: Year,
    month: Month,
    day: Day,
    link: PostLink,
) -> (result: (usize, bool))
    requires
        ordered(old(days)@, order),
    ensures
        ordered(final(days)@, order),
        added(
            old(days)@,
            final(days)@,
            Date { year: year.number(), month: month.number(), day: day.number() },
            link@,
            result.0 as int,
            result.1,
        ),
{
    let ghost date = Date { year: year.number(), month: month.number(), day: day.number() };
    let ghost before = days@;
    let mut at: usize = 0;
    while at < days.len() && is_before(&days[at], year, month, day, order)
        invariant
            days@ == before,
            at <= days.len(),
            date == (Date { year: year.number(), month: month.number(), day: day.number() }),
            forall|j: int|
                0 <= j < at ==> stands_before((#[trigger] before[j])@.date, date, order),
        decreases days.len() - at,
    {
        at += 1;
    }
    if at < days.len() && is_on(&days[at], year, month, day) {
        let mut bucket = days.remove(at);
        let ghost held = bucket@.posts;
        if !has_link(&bucket.posts, &link) {
            bucket.posts.push(link);
            assert(link_views(bucket.posts@) =~= held.push(link@));
        }
        days.insert(at, bucket);
        proof {
            assert forall|j: int| 0 <= j < before.len() && j != at implies (#[trigger] days@[j])
                == before[j] by {}
            assert forall|i: int, j: int| 0 <= i < j < days@.len() implies stands_before(
                (#[trigger] days@[i])@.date,
                (#[trigger] days@[j])@.date,
                order,
            ) by {
                assert(stands_before(before[i]@.date, before[j]@.date, order));
            }
        }
        (at, false)
    } else {
        let mut posts: Vec<PostLink> = Vec::new();
        posts.push(link);
        let bucket = DayBucket { year, month, day, posts };
        assert(bucket@.posts =~= seq![link@]);
        days.insert(at, bucket);
        proof {
            assert forall|j: int| 0 <= j < before.len() implies (#[trigger] before[j])@.date
                != date by {
                if j > at {
                    assert(stands_before(before[at as int]@.date, before[j]@.date, order));
                }
            }
            assert forall|i: int, j: int| 0 <= i < j < days@.len() implies stands_before(
                (#[trigger] days@[i])@.date,
                (#[trigger] days@[j])@.date,
                order,
            ) by {
                if j < at {
                    assert(stands_before(before[i]@.date, before[j]@.date, order));
                } else if j == at {
                    assert(stands_before(before[i]@.date, date, order));
                } else if i < at {
                    assert(stands_before(before[i]@.date, before[j - 1]@.date, order));
                } else if i == at {
                    if j - 1 > at {
                        assert(stands_before(
                            before[at as int]@.date,
                            before[j - 1]@.date,
                            order,
                        ));
                    }
                } else {
                    assert(stands_before(before[i - 1]@.date, before[j - 1]@.date, order));
                }
            }
        }
        (at, true)
    }
}

impl Archive {
    /// Whether this is what making an archive gives for a list of items
    /// and a direction. Where a post has a month or a day that is none,
    /// there is no archive, and the error tells of the first such post.
    /// Else the archive holds the posts by day: the days stand in calendar
    /// order, and the posts of a day in the order in which they were
    /// handed in.
    pub open spec fn made_from(
        result: Result<Archive, Error>,
        items: Seq<Item>,
        order: Order,
    ) -> bool {
        match first_error(items) {
            Some(error) => result == Err::<Archive, Error>(error),
            None => result is Ok && in_order(result->Ok_0@, order) && holds_posts(
                result->Ok_0@,
                items,
            ),
        }
    }

    /// Makes the archive of the posts among the items that a list points
    /// to.
    fn gather(picked: &Vec<&Item>, order: Order) -> (result: Result<Archive, Error>)
        ensures
            Archive::made_from(result, pointed(picked@), order),
    {
        let ghost items = pointed(picked@);
        let mut days: Vec<DayBucket> = Vec::new();
        let mut i: usize = 0;
        assert(items.take(0) =~= Seq::empty());
        while i < picked.len()
            invariant
                i <= picked.len(),
                items == pointed(picked@),
                first_error(items.take(i as int)) is None,
                ordered(days@, order),
                grouped(days@, items.take(i as int)),
            decreases picked.len() - i,
        {
            let ghost seen = items.take(i as int);
            let ghost next = items.take(i + 1);
            assert(next.drop_last() =~= seen);
            assert(next.last() == items[i as int]);
            match picked[i] {
                Item::Page(_) => {
                    proof {
                        grouped_after_page(days@, next);
                    }
                },
                Item::Post(post) => {
                    let year = Year::from(post.date.year);
                    let month = match Month::try_from(post.date.month) {
                        Ok(month) => month,
                        Err(error) => {
                            proof {
                                first_error_stays(items, i + 1);
                            }
                            return Err(error);
                        },
                    };
                    let day = match Day::try_from(post.date.day) {
                        Ok(day) => day,
                        Err(source) => {
                            proof {
                                first_error_stays(items, i + 1);
                            }
                            return Err(Error::BadDay { source });
                        },
                    };
                    let link = PostLink::from(post);
                    let ghost before = days@;
                    let (at, fresh) = file_link(&mut days, order, year, month, day, link);
                    proof {
                        grouped_after_post(
                            before,
                            days@,
                            order,
                            next,
                            date_of(post.date),
                            link@,
                            at as int,
                            fresh,
                        );
                    }
                },
            }
            i += 1;
        }
        assert(items.take(i as int) =~= items);
        let archive = Archive { days };
        proof {
            assert forall|a: int, b: int| 0 <= a < b < archive@.len() implies stands_before(
                (#[trigger] archive@[a]).date,
                (#[trigger] archive@[b]).date,
                order,
            ) by {
                assert(stands_before(days@[a]@.date, days@[b]@.date, order));
            }
            assert forall|a: int| 0 <= a < archive@.len() implies (#[trigger] archive@[a]).posts
                == first_occurrences(links_on(items, archive@[a].date)) && archive@[a].posts.len()
                > 0 by {
                assert(days@[a]@.posts == first_occurrences(links_on(items, days@[a]@.date)));
            }
            assert forall|date: Date| (#[trigger] links_on(items, date)).len() > 0 implies exists|
                a: int,
            |
                0 <= a < archive@.len() && (#[trigger] archive@[a]).date == date by {
                let a = choose|a: int| 0 <= a < days@.len() && (#[trigger] days@[a])@.date == date;
                assert(archive@[a].date == date);
            }
        }
        Ok(archive)
    }

    /// Makes the archive of the posts among a list of items.
    pub fn new(items: &Vec<Item>, order: Order) -> (result: Result<Archive, Error>)
        ensures
            Archive::made_from(result, items@, order),
    {
        let mut picked: Vec<&Item> = Vec::new();
        let mut i: usize = 0;
        while i < items.len()
            invariant
                i <= items.len(),
                picked@.len() == i,
                forall|j: int| 0 <= j < i ==> *picked@[j] == items@[j],
            decreases items.len() - i,
        {
            picked.push(&items[i]);
            i += 1;
        }
        assert(pointed(picked@) =~= items@);
        Archive::gather(&picked, order)
    }

    /// The days of the archive, in order.
    pub fn days(&self) -> (days: &Vec<DayBucket>)
        ensures
            bucket_views(days@) == self@,
    {
        &self.days
    }

    /// Whether the archive holds no post at all.
    pub fn is_empty(&self) -> (result: bool)
        ensures
            result == (self@.len() == 0),
    {
        self.days.len() == 0
    }
}

/// An error among the first items of a list is the error of the list.
proof fn first_error_stays(items: Seq<Item>, n: int)
    requires
        0 <= n <= items.len(),
        first_error(items.take(n)) is Some,
    ensures
        first_error(items) == first_error(items.take(n)),
    decreases items.len() - n,
{
    if n < items.len() {
        assert(items.take(n + 1).drop_last() =~= items.take(n));
        first_error_stays(items, n + 1);
    } else {
        assert(items.take(n) =~= items);
    }
}

/// Whether an item is about a book.
pub open spec fn is_about(item: Item, book: Book) -> bool {
    item.page().data.book matches Some(its) && its.agrees(book)
}

/// The items that are about a book, in their order.
pub open spec fn about<'s>(items: Seq<Item<'s>>, book: Book) -> Seq<Item<'s>>
    decreases items.len(),
{
    if items.len() == 0 {
        Seq::empty()
    } else if is_about(items.last(), book) {
        about(items.drop_last(), book).push(items.last())
    } else {
        about(items.drop_last(), book)
    }
}

/// A book together with the archive of what was written about it.
#[derive(Debug)]
pub struct BookView<'a> {
    pub book: &'a Book,
    pub archive: Archive,
}

/// The archive of a view of a book, or why there is none.
pub open spec fn archive_of(result: Result<BookView, Error>) -> Result<Archive, Error> {
    match result {
        Ok(view) => Ok(view.archive),
        Err(error) => Err(error),
    }
}

impl Book {
    /// Puts a book together with the archive of the items that are about
    /// it.
    pub fn as_view<'a>(&'a self, items: &Vec<Item>, order: Order) -> (result: Result<
        BookView<'a>,
        Error,
    >)
        ensures
            Archive::made_from(archive_of(result), about(items@, *self), order),
            result matches Ok(view) ==> view.book == self,
    {
        let mut picked: Vec<&Item> = Vec::new();
        let mut i: usize = 0;
        assert(items@.take(0) =~= Seq::empty());
        while i < items.len()
            invariant
                i <= items.len(),
                pointed(picked@) == about(items@.take(i as int), *self),
            decreases items.len() - i,
        {
            let ghost before = pointed(picked@);
            assert(items@.take(i + 1).drop_last() =~= items@.take(i as int));
            let its = match &items[i].data().book {
                Some(book) => book.same(self),
                None => false,
            };
            if its {
                picked.push(&items[i]);
                assert(pointed(picked@) =~= before.push(items@[i as int]));
            }
            i += 1;
        }
        assert(items@.take(i as int) =~= items@);
        match Archive::gather(&picked, order) {
            Ok(archive) => Ok(BookView { book: self, archive }),
            Err(error) => Err(error),
        }
    }
}

} // verus!
