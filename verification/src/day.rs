//! Which puzzle a day specifier means: the word `latest`, or a year and a day
//! written as `YYYY/D` or `YYYY/DD`.

use crate::clock::{civil_date, today_west_of_utc, CalendarDate};
use crate::decimal::{decimal, decimal_string};
use crate::error::ParseDayError;
use vstd::prelude::*;
use vstd::string::*;

verus! {

/// The last day on which a puzzle is released.
pub const LAST_DAY: u32 = 25;

/// The month in which the puzzles are released.
pub const RELEASE_MONTH: u32 = 12;

/// How far west of UTC the release calendar runs, in seconds: five hours.
pub const RELEASE_SECONDS_WEST: i32 = 5 * 3600;

/// The specifier that asks for the newest puzzle.
pub const LATEST: &'static str = "latest";

/// What is said of a specifier that has neither six nor seven characters, before
/// the specifier is quoted.
pub const LENGTH_MESSAGE_HEAD: &'static str = "Invalid day format: ";

/// The same, after the specifier.
pub const LENGTH_MESSAGE_TAIL: &'static str =
    ", expect length to be 6 or 7 characters, ex 2020/1 or 2015/25";

/// What is said of a specifier without a slash.
pub const FORMAT_MESSAGE: &'static str =
    "Invalid day format, expect format to be year/day, ex 2020/1 or 2015/25";

/// What is said of a year that does not have four characters.
pub const YEAR_MESSAGE: &'static str = "Invalid year, expect length to be 4 characters, ex 2020";

/// What is said of a day that has neither one nor two characters.
pub const DAY_MESSAGE: &'static str =
    "Invalid day, expect length to be 1 or 2 characters, ex 1 or 25";

/// What is said of a specifier `day` that has neither six nor seven characters.
pub open spec fn length_message(day: Seq<char>) -> Seq<char> {
    LENGTH_MESSAGE_HEAD@ + day + LENGTH_MESSAGE_TAIL@
}

/// Where the first slash of `s` stands, or the length of `s` where it has none.
pub open spec fn slash_position(s: Seq<char>) -> int
    decreases s.len(),
{
    if s.len() == 0 || s[0] == '/' {
        0
    } else {
        1 + slash_position(s.drop_first())
    }
}

/// What an explicit specifier gives: the year and the day around its first slash,
/// or the message of the rule that it breaks. The slash is looked for first. A
/// text without one is told that it has neither six nor seven characters, or,
/// where it has, that the slash is missing. A text with one is told of the year
/// where that has not four characters, else of the day where that has neither one
/// nor two. What the characters are is not looked at.
pub open spec fn explicit_outcome(s: Seq<char>) -> Result<(Seq<char>, Seq<char>), Seq<char>> {
    let cut = slash_position(s);
    let year = s.take(cut);
    let day = s.skip(cut + 1);
    if cut == s.len() {
        if s.len() != 6 && s.len() != 7 {
            Err(length_message(s))
        } else {
            Err(FORMAT_MESSAGE@)
        }
    } else if year.len() != 4 {
        Err(YEAR_MESSAGE@)
    } else if day.len() != 1 && day.len() != 2 {
        Err(DAY_MESSAGE@)
    } else {
        Ok((year, day))
    }
}

/// A result of the resolver with each text taken by its view.
pub open spec fn outcome_view(r: Result<(String, String), ParseDayError>) -> Result<
    (Seq<char>, Seq<char>),
    Seq<char>,
> {
    match r {
        Ok(pair) => Ok((pair.0@, pair.1@)),
        Err(error) => Err(error@),
    }
}

/// `slash_position` is the one place that holds a slash and has none before it.
pub proof fn lemma_slash_position(s: Seq<char>, i: int)
    requires
        0 <= i <= s.len(),
        forall|j: int| 0 <= j < i ==> s[j] != '/',
        i < s.len() ==> s[i] == '/',
    ensures
        slash_position(s) == i,
    decreases s.len(),
{
    if i > 0 {
        let rest = s.drop_first();
        assert forall|j: int| 0 <= j < i - 1 implies rest[j] != '/' by {
            assert(rest[j] == s[j + 1]);
        }
        lemma_slash_position(rest, i - 1);
    }
}

/// Reads an explicit specifier, `YYYY/D` or `YYYY/DD`.
pub fn parse_day(day: &str) -> (r: Result<(String, String), ParseDayError>)
    ensures
        outcome_view(r) == explicit_outcome(day@),
{
    let len = day.unicode_len();
    let mut cut: usize = 0;
    while cut < len && day.get_char(cut) != '/'
        invariant
            len == day@.len(),
            cut <= len,
            forall|j: int| 0 <= j < cut ==> day@[j] != '/',
        decreases len - cut,
    {
        cut += 1;
    }
    proof {
        lemma_slash_position(day@, cut as int);
    }
    if cut == len {
        if !(len == 6 || len == 7) {
            let mut text = String::from_str(LENGTH_MESSAGE_HEAD);
            text.append(day);
            text.append(LENGTH_MESSAGE_TAIL);
            return Err(ParseDayError::new(text.as_str()));
        }
        return Err(ParseDayError::new(FORMAT_MESSAGE));
    }
    if cut != 4 {
        return Err(ParseDayError::new(YEAR_MESSAGE));
    }
    let rest_len = len - cut - 1;
    if !(rest_len == 1 || rest_len == 2) {
        return Err(ParseDayError::new(DAY_MESSAGE));
    }
    let year = day.substring_char(0, cut);
    let rest = day.substring_char(cut + 1, len);
    assert(year@ == day@.take(cut as int));
    assert(rest@ == day@.skip(cut + 1));
    Ok((String::from_str(year), String::from_str(rest)))
}

/// The puzzle that `latest` means on the day `today`: in the release month the
/// puzzle of that day, and from the day after the last one on the last puzzle;
/// in any other month the last puzzle of the year before.
pub open spec fn latest_pair(today: CalendarDate) -> (Seq<char>, Seq<char>) {
    if today.month == RELEASE_MONTH {
        if today.day > LAST_DAY {
            (decimal(today.year as int), decimal(LAST_DAY as int))
        } else {
            (decimal(today.year as int), decimal(today.day as int))
        }
    } else {
        (decimal(today.year - 1), decimal(LAST_DAY as int))
    }
}

/// The newest puzzle on the day `today`, as the year and the day in decimal.
pub fn latest_puzzle(today: CalendarDate) -> (pair: (String, String))
    ensures
        (pair.0@, pair.1@) == latest_pair(today),
        today.month == 12 && today.day <= 25 ==> pair.0@ == decimal(today.year as int) && pair.1@
            == decimal(today.day as int),
        today.month == 12 && today.day > 25 ==> pair.0@ == decimal(today.year as int) && pair.1@
            == decimal(25),
        today.month != 12 ==> pair.0@ == decimal(today.year - 1) && pair.1@ == decimal(25),
{
    if today.month == RELEASE_MONTH {
        let day = if today.day > LAST_DAY {
            LAST_DAY
        } else {
            today.day
        };
        (decimal_string(today.year as i64), decimal_string(day as i64))
    } else {
        (decimal_string(today.year as i64 - 1), decimal_string(LAST_DAY as i64))
    }
}

/// Resolves a day specifier to the year and the day of a puzzle. `latest` is
/// answered from the calendar date that some instant has five hours west of UTC:
/// the instant is the one that the clock gives. Anything else is read as an
/// explicit specifier.
pub fn convert_day_to_url(day: String) -> (r: Result<(String, String), ParseDayError>)
    ensures
        day@ == LATEST@ ==> exists|today: CalendarDate, instant: int|
            today.in_calendar() && today.numbers() == #[trigger] civil_date(
                instant,
                RELEASE_SECONDS_WEST as int,
            ) && outcome_view(r) == Ok::<(Seq<char>, Seq<char>), Seq<char>>(
                #[trigger] latest_pair(today),
            ),
        day@ != LATEST@ ==> outcome_view(r) == explicit_outcome(day@),
{
    let latest = String::from_str(LATEST);
    if day == latest {
        let (instant, today) = today_west_of_utc(RELEASE_SECONDS_WEST);
        let pair = latest_puzzle(today);
        assert(today.numbers() == civil_date(instant as int, RELEASE_SECONDS_WEST as int));
        Ok(pair)
    } else {
        parse_day(day.as_str())
    }
}

/// A year of four characters without a slash, a slash, and a day of one or two
/// characters make a specifier that is accepted, and it gives back that year and
/// that day.
pub proof fn lemma_well_formed_is_accepted(year: Seq<char>, day: Seq<char>)
    requires
        year.len() == 4,
        !year.contains('/'),
        day.len() == 1 || day.len() == 2,
    ensures
        explicit_outcome(year + seq!['/'] + day) == Ok::<(Seq<char>, Seq<char>), Seq<char>>(
            (year, day),
        ),
{
    let s = year + seq!['/'] + day;
    assert forall|j: int| 0 <= j < 4 implies s[j] != '/' by {
        assert(s[j] == year[j]);
        assert(year.contains(year[j]));
    }
    lemma_slash_position(s, 4);
    assert(s.take(4) =~= year);
    assert(s.skip(5) =~= day);
}

/// Whatever is accepted is put together from what it gives: the year, which has
/// four characters and no slash, a slash, and the day, which has one or two
/// characters. So it has six or seven characters in all.
pub proof fn lemma_accepted_is_well_formed(s: Seq<char>)
    requires
        explicit_outcome(s) is Ok,
    ensures
        ({
            let (year, day) = explicit_outcome(s)->Ok_0;
            &&& s == year + seq!['/'] + day
            &&& year.len() == 4
            &&& !year.contains('/')
            &&& (day.len() == 1 || day.len() == 2)
            &&& (s.len() == 6 || s.len() == 7)
        }),
{
    let cut = slash_position(s);
    lemma_slash_position_found(s);
    let year = s.take(cut);
    let day = s.skip(cut + 1);
    assert(s =~= year + seq!['/'] + day);
}

/// Where `slash_position` points: within `s` or at its end, at a slash if within,
/// and past no slash.
pub proof fn lemma_slash_position_found(s: Seq<char>)
    ensures
        0 <= slash_position(s) <= s.len(),
        slash_position(s) < s.len() ==> s[slash_position(s)] == '/',
        forall|j: int| 0 <= j < slash_position(s) ==> s[j] != '/',
    decreases s.len(),
{
    if !(s.len() == 0 || s[0] == '/') {
        let rest = s.drop_first();
        lemma_slash_position_found(rest);
        assert forall|j: int| 0 <= j < slash_position(s) implies s[j] != '/' by {
            if j > 0 {
                assert(rest[j - 1] == s[j]);
            }
        }
    }
}

/// Every text is answered by its parts where it has a slash, and by its length
/// where it has none: a slash never gives the message on the length or on the
/// missing slash, and a text without one never gives another.
pub proof fn lemma_slash_decides(s: Seq<char>)
    ensures
        s.contains('/') ==> explicit_outcome(s) is Ok || explicit_outcome(s) == Err::<
            (Seq<char>, Seq<char>),
            Seq<char>,
        >(YEAR_MESSAGE@) || explicit_outcome(s) == Err::<(Seq<char>, Seq<char>), Seq<char>>(
            DAY_MESSAGE@,
        ),
        !s.contains('/') ==> explicit_outcome(s) == Err::<(Seq<char>, Seq<char>), Seq<char>>(
            length_message(s),
        ) || explicit_outcome(s) == Err::<(Seq<char>, Seq<char>), Seq<char>>(FORMAT_MESSAGE@),
{
    lemma_slash_position_found(s);
    let cut = slash_position(s);
    if s.contains('/') {
        let at = choose|i: int| 0 <= i < s.len() && s[i] == '/';
        assert(cut <= at);
    } else if cut < s.len() {
        assert(s.contains(s[cut]));
    }
}

} // verus!
