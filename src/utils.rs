use vstd::prelude::*;

use crate::calendar::{formatted_date, year_in_range};
use crate::date_constraints::HasDateConstraints;
use crate::dialog_view_type::DialogViewType;
use crate::year_month::{group_end, group_start, month_after, month_before, YearMonth};

verus! {

/// The character of the decimal digit `d` (0 to 9).
pub open spec fn digit_char(d: nat) -> char {
    if d == 0 {
        '0'
    } else if d == 1 {
        '1'
    } else if d == 2 {
        '2'
    } else if d == 3 {
        '3'
    } else if d == 4 {
        '4'
    } else if d == 5 {
        '5'
    } else if d == 6 {
        '6'
    } else if d == 7 {
        '7'
    } else if d == 8 {
        '8'
    } else {
        '9'
    }
}

/// Decimal digits of `n`, most significant first, without leading zeros.
pub open spec fn digits(n: nat) -> Seq<char>
    decreases n,
{
    if n < 10 {
        seq![digit_char(n)]
    } else {
        digits(n / 10).push(digit_char(n % 10))
    }
}

/// Decimal text of `n`, with a leading `-` when it is negative.
pub open spec fn decimal(n: int) -> Seq<char> {
    if n < 0 {
        seq!['-'] + digits((-n) as nat)
    } else {
        digits(n as nat)
    }
}

/// Title of the year view: the first and the last year of the group of `year`.
pub open spec fn year_group_title(year: int) -> Seq<char> {
    decimal(group_start(year)) + "-"@ + decimal(group_end(year))
}

fn digit_str(d: u32) -> (r: &'static str)
    requires
        d < 10,
    ensures
        r@ == seq![digit_char(d as nat)],
{
    proof {
        reveal_strlit("0");
        reveal_strlit("1");
        reveal_strlit("2");
        reveal_strlit("3");
        reveal_strlit("4");
        reveal_strlit("5");
        reveal_strlit("6");
        reveal_strlit("7");
        reveal_strlit("8");
        reveal_strlit("9");
    }
    if d == 0 {
        "0"
    } else if d == 1 {
        "1"
    } else if d == 2 {
        "2"
    } else if d == 3 {
        "3"
    } else if d == 4 {
        "4"
    } else if d == 5 {
        "5"
    } else if d == 6 {
        "6"
    } else if d == 7 {
        "7"
    } else if d == 8 {
        "8"
    } else {
        "9"
    }
}

fn push_digits(n: u32, out: &mut String)
    ensures
        final(out)@ == old(out)@ + digits(n as nat),
    decreases n,
{
    if n >= 10 {
        push_digits(n / 10, out);
    }
    out.append(digit_str(n % 10));
}

/// Appends the decimal text of `n` to `out`.
pub fn push_decimal(n: i32, out: &mut String)
    ensures
        final(out)@ == old(out)@ + decimal(n as int),
{
    if n < 0 {
        proof {
            reveal_strlit("-");
        }
        out.append("-");
        let magnitude: u32 = (-(n as i64)) as u32;
        push_digits(magnitude, out);
        assert(final(out)@ =~= old(out)@ + decimal(n as int));
    } else {
        push_digits(n as u32, out);
    }
}

/// The title of the datepicker dialog for the period `viewed` shown in `dialog_view_type`:
/// the first day of the month formatted with `month_title_format` in the day view, its year
/// (chrono's `%Y`) in the month view, and the bounds of its year group in the year view.
/// `None` where chrono cannot apply `month_title_format` to a date.
pub fn create_dialog_title_text(
    dialog_view_type: &DialogViewType,
    viewed: &YearMonth,
    month_title_format: &str,
) -> (r: Option<String>)
    requires
        viewed.wf(),
        year_in_range(viewed.year as int),
    ensures
        *dialog_view_type == DialogViewType::Days ==> formatted_date(
            month_title_format@,
            viewed.year as int,
            viewed.month as int,
            1,
        ) == match r {
            Some(s) => Some(s@),
            None => None::<Seq<char>>,
        },
        *dialog_view_type == DialogViewType::Months ==> formatted_date(
            "%Y"@,
            viewed.year as int,
            viewed.month as int,
            1,
        ) == match r {
            Some(s) => Some(s@),
            None => None::<Seq<char>>,
        },
        *dialog_view_type == DialogViewType::Years ==> (r matches Some(s) && s@
            == year_group_title(viewed.year as int)),
{
    match dialog_view_type {
        DialogViewType::Days => viewed.first_day_of_month().format(month_title_format),
        DialogViewType::Months => viewed.first_day_of_month().format("%Y"),
        DialogViewType::Years => {
            let mut text = String::new();
            push_decimal(crate::year_month::year_group_start(viewed.year), &mut text);
            proof {
                reveal_strlit("-");
            }
            text.append("-");
            push_decimal(crate::year_month::year_group_end(viewed.year), &mut text);
            assert(text@ =~= year_group_title(viewed.year as int));
            Some(text)
        },
    }
}

/// Whether the "previous" button should be shown: the period before `viewed` (the previous
/// month, year or year group, by `dialog_view_type`) is not entirely forbidden.
pub fn should_display_previous_button<T: HasDateConstraints>(
    dialog_view_type: &DialogViewType,
    viewed: &YearMonth,
    config: &T,
) -> (r: bool)
    requires
        viewed.wf(),
        year_in_range(viewed.year as int),
    ensures
        *dialog_view_type == DialogViewType::Days ==> r == !config.month_forbidden(
            month_before(*viewed),
        ),
        *dialog_view_type == DialogViewType::Months ==> r == !config.year_forbidden(
            viewed.year - 1,
        ),
        *dialog_view_type == DialogViewType::Years ==> r == !config.year_group_forbidden(
            group_start(viewed.year as int) - 1,
        ),
{
    match dialog_view_type {
        DialogViewType::Days => !config.is_month_forbidden(&viewed.previous_month()),
        DialogViewType::Months => !config.is_year_forbidden(viewed.previous_year().year),
        DialogViewType::Years => !config.is_year_group_forbidden(
            viewed.previous_year_group().year,
        ),
    }
}

/// Whether the "next" button should be shown: the period after `viewed` (the next month,
/// year or year group, by `dialog_view_type`) is not entirely forbidden.
pub fn should_display_next_button<T: HasDateConstraints>(
    dialog_view_type: &DialogViewType,
    viewed: &YearMonth,
    config: &T,
) -> (r: bool)
    requires
        viewed.wf(),
        year_in_range(viewed.year as int),
    ensures
        *dialog_view_type == DialogViewType::Days ==> r == !config.month_forbidden(
            month_after(*viewed),
        ),
        *dialog_view_type == DialogViewType::Months ==> r == !config.year_forbidden(
            viewed.year + 1,
        ),
        *dialog_view_type == DialogViewType::Years ==> r == !config.year_group_forbidden(
            group_end(viewed.year as int) + 1,
        ),
{
    match dialog_view_type {
        DialogViewType::Days => !config.is_month_forbidden(&viewed.next_month()),
        DialogViewType::Months => !config.is_year_forbidden(viewed.next_year().year),
        DialogViewType::Years => !config.is_year_group_forbidden(viewed.next_year_group().year),
    }
}

} // verus!
