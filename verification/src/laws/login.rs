//! What a login asks, what it says, and how moments are written.
#![allow(unused_imports)]
use vstd::prelude::*;

use crate::auth;
use crate::auth::{
    AuthResult, ConvError, ConvView, PamFailure, PasswdLookup, PasswordConv, UsernameError,
};
use crate::clock;
use crate::clock::LocalTime;
use crate::text;

verus! {

/// The name of the user is `USER`, where that is set and not empty, else `LOGNAME`
/// under the same condition, and else not known from the environment.
pub proof fn law_name_from_environment(
    user: Option<String>,
    logname: Option<String>,
    res: Option<String>,
)
    requires
        call_ensures(auth::env_username, (user, logname), res),
    ensures
        user is Some && user->0@.len() > 0 ==> res is Some && res->0@ == user->0@,
        (user is None || user->0@.len() == 0) && logname is Some && logname->0@.len() > 0 ==> res
            is Some && res->0@ == logname->0@,
        (user is None || user->0@.len() == 0) && (logname is None || logname->0@.len() == 0) ==> res
            is None,
{
}

/// The password database gives the name that it lists, and otherwise says why it
/// gives none.
pub proof fn law_name_from_database(lookup: PasswdLookup, res: Result<String, UsernameError>)
    requires
        call_ensures(auth::passwd_username, (lookup,), res),
    ensures
        lookup matches PasswdLookup::Found(name) ==> res is Ok && res->Ok_0@ == name@,
        lookup is Unreadable ==> res is Err && res->Err_0 is Unreadable,
        lookup is Missing ==> res is Err && res->Err_0 is Missing,
{
}

/// A conversation starts without messages. It answers a question whose answer may be
/// shown with the name, and one whose answer is hidden with the password, unless
/// there is a NUL in it.
pub proof fn law_answers_to_pam(
    username: String,
    password: &str,
    conv: PasswordConv,
    shown: Result<&str, ConvError>,
    hidden: Result<&str, ConvError>,
)
    requires
        call_ensures(PasswordConv::new, (username, password), conv),
        call_ensures(PasswordConv::prompt_echo_on, (&conv,), shown),
        call_ensures(PasswordConv::prompt_echo_off, (&conv,), hidden),
    ensures
        conv@.messages.len() == 0,
        conv@.username == username@,
        conv@.password == password@,
        shown is Ok <==> forall|i: int| 0 <= i < username@.len() ==> #[trigger] username@[i] != '\0',
        shown matches Ok(answer) ==> answer@ == username@,
        hidden is Ok <==> forall|i: int|
            0 <= i < password@.len() ==> #[trigger] password@[i] != '\0',
        hidden matches Ok(answer) ==> answer@ == password@,
{
}

/// Later answers are the same: what PAM says does not change them.
pub proof fn law_later_answers(
    conv: PasswordConv,
    shown: Result<&str, ConvError>,
    hidden: Result<&str, ConvError>,
)
    requires
        call_ensures(PasswordConv::prompt_echo_on, (&conv,), shown),
        call_ensures(PasswordConv::prompt_echo_off, (&conv,), hidden),
    ensures
        shown is Err <==> conv@.username.contains('\0'),
        shown matches Ok(answer) ==> answer@ == conv@.username,
        hidden is Err <==> conv@.password.contains('\0'),
        hidden matches Ok(answer) ==> answer@ == conv@.password,
{
}

/// Whether a message has been noted behind the others: it is kept byte for byte if it
/// is UTF-8, and dropped if it is not.
pub open spec fn notes_message(before: ConvView, after: ConvView, msg: Seq<u8>) -> bool {
    &&& after.username == before.username
    &&& after.password == before.password
    &&& !vstd::utf8::valid_utf8(msg) ==> after.messages == before.messages
    &&& vstd::utf8::valid_utf8(msg) ==> {
        &&& after.messages.len() == before.messages.len() + 1
        &&& after.messages.drop_last() == before.messages
        &&& vstd::utf8::encode_utf8(after.messages.last()) == msg
    }
}

/// An information that PAM gives is noted.
pub proof fn law_information_is_noted(conv: &mut PasswordConv, msg: &[u8])
    requires
        call_ensures(PasswordConv::text_info, (conv, msg), ()),
    ensures
        notes_message(old(conv)@, final(conv)@, msg@),
{
    if vstd::utf8::valid_utf8(msg@) {
        vstd::utf8::decode_utf8_encode_utf8(msg@);
        assert(final(conv)@.messages.drop_last() =~= old(conv)@.messages);
    }
}

/// An error that PAM reports is noted.
pub proof fn law_error_is_noted(conv: &mut PasswordConv, msg: &[u8])
    requires
        call_ensures(PasswordConv::error_msg, (conv, msg), ()),
    ensures
        notes_message(old(conv)@, final(conv)@, msg@),
{
    if vstd::utf8::valid_utf8(msg@) {
        vstd::utf8::decode_utf8_encode_utf8(msg@);
        assert(final(conv)@.messages.drop_last() =~= old(conv)@.messages);
    }
}

/// Lists of texts can be joined in two parts, with one separator between the parts. A
/// text alone stays as it is, and no text gives an empty one.
pub proof fn law_joining(first: Seq<Seq<char>>, second: Seq<Seq<char>>, sep: Seq<char>)
    ensures
        text::joined(Seq::empty(), sep).len() == 0,
        first.len() == 1 ==> text::joined(first, sep) == first[0],
        first.len() > 0 && second.len() > 0 ==> text::joined(first + second, sep) == text::joined(
            first,
            sep,
        ) + sep + text::joined(second, sep),
    decreases second.len(),
{
    if first.len() > 0 && second.len() > 0 {
        let all = first + second;
        assert(all.last() == second.last());
        assert(all.drop_last() =~= first + second.drop_last());
        if second.len() == 1 {
            assert(all.drop_last() =~= first);
        } else {
            law_joining(first, second.drop_last(), sep);
            assert(text::joined(all, sep) =~= text::joined(first, sep) + sep + text::joined(
                second,
                sep,
            ));
        }
    }
}

/// Joining gives the joined texts.
pub proof fn law_join(parts: Vec<String>, sep: &str, res: String)
    requires
        call_ensures(text::join, (&parts, sep), res),
    ensures
        res@ == text::joined(Seq::new(parts@.len(), |i: int| parts@[i]@), sep@),
{
    assert(text::texts(parts@) =~= Seq::new(parts@.len(), |i: int| parts@[i]@));
}

/// A text is blank exactly if none of its characters is other than white space, and
/// it holds a NUL exactly if one of its characters is one.
pub proof fn law_looking_into_texts(s: &str, blank: bool, nul: bool)
    requires
        call_ensures(text::is_blank, (s,), blank),
        call_ensures(text::contains_nul, (s,), nul),
    ensures
        !blank <==> exists|i: int| 0 <= i < s@.len() && !text::white_space(#[trigger] s@[i]),
        nul <==> exists|i: int| 0 <= i < s@.len() && #[trigger] s@[i] == '\0',
{
}

/// The first text that is not blank is picked, and the last one where both others
/// are.
pub proof fn law_selected_message(
    conv: String,
    conv_blank: bool,
    pam: String,
    pam_blank: bool,
    description: String,
    res: String,
)
    requires
        call_ensures(auth::select_message, (conv, conv_blank, pam, pam_blank, description), res),
    ensures
        !conv_blank ==> res@ == conv@,
        conv_blank && !pam_blank ==> res@ == pam@,
        conv_blank && pam_blank ==> res@ == description@,
{
}

/// A login succeeds exactly if PAM grants it. The reason of a refusal is what PAM said
/// in the conversation, joined by spaces, if there is anything to read in it; else
/// what PAM says of its error code, under the same condition; else the error itself.
pub proof fn law_verdict(answer: Result<(), PamFailure>, conv: PasswordConv, res: AuthResult)
    requires
        call_ensures(auth::authenticate, (answer, &conv), res),
    ensures
        res is Success <==> answer is Ok,
        answer matches Err(failure) ==> {
            let said = text::joined(conv@.messages, seq![' ']);
            let readable = exists|i: int|
                0 <= i < said.len() && !text::white_space(#[trigger] said[i]);
            let code_readable = failure.message is Some && exists|i: int|
                0 <= i < failure.message->0@.len() && !text::white_space(
                    #[trigger] failure.message->0@[i],
                );
            &&& readable ==> res->Failure_0@ == said
            &&& !readable && code_readable ==> res->Failure_0@ == failure.message->0@
            &&& !readable && !code_readable ==> res->Failure_0@ == failure.description@
        },
{
}

/// Whether a character is a digit of this value.
pub open spec fn is_digit(c: char, value: int) -> bool {
    0 <= value <= 9 && c as u32 == '0' as u32 + value
}

/// The last day of a month: the thirtieth in April, June, September and November, the
/// twenty-eighth or in leap years the twenty-ninth in February, else the thirty-first.
pub proof fn law_month_lengths(year: int, month: int)
    requires
        1 <= month <= 12,
    ensures
        month == 4 || month == 6 || month == 9 || month == 11 <==> clock::days_in_month(year, month)
            == 30,
        month != 2 ==> clock::days_in_month(year, month) == 30 || clock::days_in_month(year, month)
            == 31,
        month == 2 && (year % 400 == 0 || (year % 4 == 0 && year % 100 != 0))
            ==> clock::days_in_month(year, month) == 29,
        month == 2 && !(year % 400 == 0 || (year % 4 == 0 && year % 100 != 0))
            ==> clock::days_in_month(year, month) == 28,
{
}

/// How many days of a year come before December.
proof fn lemma_days_before_december(year: int)
    ensures
        clock::days_before_month(year, 12) == if clock::leap_year(year) {
            335int
        } else {
            334
        },
{
    reveal_with_fuel(clock::days_before_month, 13);
}

/// A quotient grows by one exactly at the multiples of the divisor.
proof fn lemma_multiples(n: int, d: int)
    requires
        d > 1,
    ensures
        n / d == (n - 1) / d + if n % d == 0 {
            1int
        } else {
            0
        },
{
    let q = n / d;
    let r = n % d;
    vstd::arithmetic::div_mod::lemma_fundamental_div_mod(n, d);
    vstd::arithmetic::div_mod::lemma_mod_bound(n, d);
    if r == 0 {
        assert(n - 1 == (q - 1) * d + (d - 1)) by (nonlinear_arith)
            requires
                n == d * q,
        ;
        vstd::arithmetic::div_mod::lemma_fundamental_div_mod_converse(n - 1, d, q - 1, d - 1);
    } else {
        assert(n - 1 == q * d + (r - 1)) by (nonlinear_arith)
            requires
                n == d * q + r,
        ;
        vstd::arithmetic::div_mod::lemma_fundamental_div_mod_converse(n - 1, d, q, r - 1);
    }
}

/// A multiple of a product is a multiple of its factors.
proof fn lemma_multiple_of_factor(n: int, d: int, k: int)
    requires
        d > 0,
        k > 0,
        n % (d * k) == 0,
    ensures
        n % d == 0,
{
    let q = n / (d * k);
    assert(d * k > 0) by (nonlinear_arith)
        requires
            d > 0,
            k > 0,
    ;
    vstd::arithmetic::div_mod::lemma_fundamental_div_mod(n, d * k);
    assert(n == (k * q) * d) by (nonlinear_arith)
        requires
            n == (d * k) * q,
    ;
    vstd::arithmetic::div_mod::lemma_fundamental_div_mod_converse(n, d, k * q, 0);
}

/// A leap day more is counted exactly after a leap year.
proof fn lemma_leap_days(year: int)
    ensures
        year / 4 - year / 100 + year / 400 == (year - 1) / 4 - (year - 1) / 100 + (year - 1) / 400
            + if clock::leap_year(year) {
            1int
        } else {
            0
        },
{
    lemma_multiples(year, 4);
    lemma_multiples(year, 100);
    lemma_multiples(year, 400);
    if year % 400 == 0 {
        lemma_multiple_of_factor(year, 100, 4);
    }
    if year % 100 == 0 {
        lemma_multiple_of_factor(year, 4, 25);
    }
}

/// The next of seven days.
proof fn lemma_next_of_seven(n: int)
    ensures
        (n + 1) % 7 == (n % 7 + 1) % 7,
{
}

/// Days of the week follow each other, from day to day, from month to month and from
/// year to year, and the first day of the year 1 is a Monday.
pub proof fn law_weekdays_follow(year: int, month: int, day: int)
    requires
        1 <= month <= 12,
    ensures
        0 <= clock::weekday(year, month, day) < 7,
        clock::weekday(1, 1, 1) == 0,
        clock::weekday(year, month, day + 1) == (clock::weekday(year, month, day) + 1) % 7,
        month < 12 ==> clock::weekday(year, month + 1, 1) == (clock::weekday(
            year,
            month,
            clock::days_in_month(year, month),
        ) + 1) % 7,
        clock::weekday(year + 1, 1, 1) == (clock::weekday(year, 12, 31) + 1) % 7,
{
    let days = 365 * (year - 1) + (year - 1) / 4 - (year - 1) / 100 + (year - 1) / 400;
    let before = clock::days_before_month(year, month);
    lemma_next_of_seven(days + before + day - 1);
    lemma_next_of_seven(days + before + clock::days_in_month(year, month) - 1);
    lemma_next_of_seven(days + clock::days_before_month(year, 12) + 30);
    lemma_days_before_december(year);
    lemma_leap_days(year);
}

/// The time is written as two digits of the hour, a colon and two digits of the
/// minute, for every moment that is in the calendar and for no other.
pub proof fn law_time_is_written(moment: LocalTime, res: Option<String>)
    requires
        call_ensures(clock::time_text, (&moment,), res),
    ensures
        res is Some <==> -262143 <= moment.year <= 262142 && 1 <= moment.month <= 12 && 1
            <= moment.day <= clock::days_in_month(moment.year as int, moment.month as int)
            && moment.hour <= 23 && moment.minute <= 59,
        res matches Some(text) ==> {
            &&& text@.len() == 5
            &&& is_digit(text@[0], moment.hour as int / 10)
            &&& is_digit(text@[1], moment.hour as int % 10)
            &&& text@[2] == ':'
            &&& is_digit(text@[3], moment.minute as int / 10)
            &&& is_digit(text@[4], moment.minute as int % 10)
        },
{
}

/// The date is written as the name of the day of the week, a comma and a space, the
/// name of the month, a space and two digits of the day, for every moment that is in
/// the calendar and for no other.
pub proof fn law_date_is_written(moment: LocalTime, res: Option<String>)
    requires
        call_ensures(clock::date_text, (&moment,), res),
    ensures
        res is Some <==> -262143 <= moment.year <= 262142 && 1 <= moment.month <= 12 && 1
            <= moment.day <= clock::days_in_month(moment.year as int, moment.month as int)
            && moment.hour <= 23 && moment.minute <= 59,
        res matches Some(text) ==> {
            let day = clock::weekday_name(
                clock::weekday(moment.year as int, moment.month as int, moment.day as int),
            );
            let month = clock::month_name(moment.month as int);
            let len = text@.len() as int;
            &&& len == day.len() + month.len() + 5
            &&& text@.take(day.len() as int) == day
            &&& text@[day.len() as int] == ','
            &&& text@[day.len() + 1int] == ' '
            &&& text@.subrange(day.len() + 2int, len - 3) == month
            &&& text@[len - 3] == ' '
            &&& is_digit(text@[len - 2], moment.day as int / 10)
            &&& is_digit(text@[len - 1], moment.day as int % 10)
        },
{
    if let Some(text) = res {
        let day = clock::weekday_name(
            clock::weekday(moment.year as int, moment.month as int, moment.day as int),
        );
        let month = clock::month_name(moment.month as int);
        assert(text@.take(day.len() as int) =~= day);
        assert(text@.subrange(day.len() + 2int, text@.len() - 3) =~= month);
    }
}

/// The names of the days of the week and of the months, in their order.
pub proof fn law_calendar_names()
    ensures
        clock::weekday_name(0) == "Monday"@,
        clock::weekday_name(1) == "Tuesday"@,
        clock::weekday_name(2) == "Wednesday"@,
        clock::weekday_name(3) == "Thursday"@,
        clock::weekday_name(4) == "Friday"@,
        clock::weekday_name(5) == "Saturday"@,
        clock::weekday_name(6) == "Sunday"@,
        clock::month_name(1) == "January"@,
        clock::month_name(2) == "February"@,
        clock::month_name(3) == "March"@,
        clock::month_name(4) == "April"@,
        clock::month_name(5) == "May"@,
        clock::month_name(6) == "June"@,
        clock::month_name(7) == "July"@,
        clock::month_name(8) == "August"@,
        clock::month_name(9) == "September"@,
        clock::month_name(10) == "October"@,
        clock::month_name(11) == "November"@,
        clock::month_name(12) == "December"@,
{
}

} // verus!
