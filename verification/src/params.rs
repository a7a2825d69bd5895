//! The addresses and form fields of the two requests that a check sends.

use vstd::prelude::*;
use vstd::string::StringExecFns;

verus! {

/// The host that every request names in its `authority` header.
pub const AUTHORITY: &'static str = "www.doctolib.fr";

/// The media type that every request accepts.
pub const ACCEPT: &'static str = "text/json";

/// The browser identity that every request carries.
pub const USER_AGENT: &'static str =
    "Mozilla/5.0 (Macintosh; Intel Mac OS X 10_15_7) AppleWebKit/537.36 (KHTML, like Gecko) Chrome/90.0.4430.212 Safari/537.36";

/// The address of the slot search.
pub const AVAILABILITY_URL: &'static str = "https://www.doctolib.fr/availabilities.json";

/// What precedes a center's identifier in the address of its booking data.
pub const BOOKING_URL_PREFIX: &'static str = "https://www.doctolib.fr/booking/";

/// What follows a center's identifier in the address of its booking data.
pub const BOOKING_URL_SUFFIX: &'static str = ".json";

/// The address of a center's booking data.
pub open spec fn booking_url_text(center: Seq<char>) -> Seq<char> {
    BOOKING_URL_PREFIX@ + center + BOOKING_URL_SUFFIX@
}

/// Builds the address from which the booking data of `center` is fetched.
pub fn booking_url(center: &str) -> (url: String)
    ensures
        url@ == booking_url_text(center@),
{
    let mut url = String::from_str(BOOKING_URL_PREFIX);
    url.append(center);
    url.append(BOOKING_URL_SUFFIX);
    url
}

/// The character that writes a digit.
pub open spec fn digit_char(d: nat) -> char
    recommends
        d < 10,
{
    if d == 0 {
        '0'
    } else if d == 1 {
        '1'
    } else if d == 2 {
        '2'
    } else if d == 3 {
        '3'
    } else if d == 4 {
        '4'
    } else if d == 5 {
        '5'
    } else if d == 6 {
        '6'
    } else if d == 7 {
        '7'
    } else if d == 8 {
        '8'
    } else {
        '9'
    }
}

/// A number in decimal, without sign or leading zeros; zero is "0".
pub open spec fn decimal(n: nat) -> Seq<char>
    decreases n,
{
    if n < 10 {
        seq![digit_char(n)]
    } else {
        decimal(n / 10).push(digit_char(n % 10))
    }
}

/// The numbers of `ids` in decimal, in their order, with a comma between
/// each two; nothing stands before the first or after the last.
pub open spec fn comma_joined(ids: Seq<u32>) -> Seq<char>
    decreases ids.len(),
{
    if ids.len() == 0 {
        Seq::empty()
    } else if ids.len() == 1 {
        decimal(ids[0] as nat)
    } else {
        comma_joined(ids.drop_last()) + seq![','] + decimal(ids.last() as nat)
    }
}

/// The text of one digit.
fn digit_text(d: u32) -> (text: &'static str)
    requires
        d < 10,
    ensures
        text@ == seq![digit_char(d as nat)],
{
    proof {
        reveal_strlit("0");
        reveal_strlit("1");
        reveal_strlit("2");
        reveal_strlit("3");
        reveal_strlit("4");
        reveal_strlit("5");
        reveal_strlit("6");
        reveal_strlit("7");
        reveal_strlit("8");
        reveal_strlit("9");
    }
    let text = if d == 0 {
        "0"
    } else if d == 1 {
        "1"
    } else if d == 2 {
        "2"
    } else if d == 3 {
        "3"
    } else if d == 4 {
        "4"
    } else if d == 5 {
        "5"
    } else if d == 6 {
        "6"
    } else if d == 7 {
        "7"
    } else if d == 8 {
        "8"
    } else {
        "9"
    };
    assert(text@ =~= seq![digit_char(d as nat)]);
    text
}

/// Appends `n` in decimal to `out`.
pub fn push_decimal(out: &mut String, n: u32)
    ensures
        final(out)@ == old(out)@ + decimal(n as nat),
    decreases n,
{
    if n >= 10 {
        push_decimal(out, n / 10);
    }
    out.append(digit_text(n % 10));
    proof {
        assert(out@ =~= old(out)@ + decimal(n as nat));
    }
}

/// Writes a list of ids as one form value: the ids in decimal, separated
/// by commas.
pub fn vec_to_param(vec: &Vec<u32>) -> (param: String)
    ensures
        param@ == comma_joined(vec@),
{
    let mut param = String::new();
    let n: usize = vec.len();
    let mut i: usize = 0;
    while i < n
        invariant
            n == vec@.len(),
            i <= n,
            param@ == comma_joined(vec@.subrange(0, i as int)),
        decreases n - i,
    {
        proof {
            reveal_strlit(",");
            assert(vec@.subrange(0, i + 1).drop_last() =~= vec@.subrange(0, i as int));
        }
        if i > 0 {
            param.append(",");
        }
        push_decimal(&mut param, vec[i]);
        proof {
            assert(param@ =~= comma_joined(vec@.subrange(0, i + 1)));
        }
        i += 1;
    }
    proof {
        assert(vec@.subrange(0, n as int) =~= vec@);
    }
    param
}

/// The form of a slot search: the fields in the order in which they are
/// sent, each with its name and its value.
pub open spec fn availability_form(
    start_date: Seq<char>,
    visit_motive_ids: Seq<u32>,
    agenda_ids: Seq<u32>,
    practice_ids: Seq<u32>,
) -> Seq<(Seq<char>, Seq<char>)> {
    seq![
        ("start_date"@, start_date),
        ("visit_motive_ids"@, comma_joined(visit_motive_ids)),
        ("agenda_ids"@, comma_joined(agenda_ids)),
        ("practice_ids"@, comma_joined(practice_ids)),
        ("insurance_sector"@, "public"@),
        ("destroy_temporary"@, "true"@),
        ("limit"@, "2"@),
    ]
}

/// The names and values of a list of form fields, as text.
pub open spec fn form_text(fields: Seq<(String, String)>) -> Seq<(Seq<char>, Seq<char>)> {
    fields.map_values(|f: (String, String)| (f.0@, f.1@))
}

/// Builds the form of a slot search that starts at `start_date`, for the
/// given motives, agendas and practices. The page size of 2 is a hint to the
/// platform; the total it answers with counts every matching slot.
pub fn availability_params(
    start_date: String,
    visit_motive_ids: &Vec<u32>,
    agenda_ids: &Vec<u32>,
    practice_ids: &Vec<u32>,
) -> (fields: Vec<(String, String)>)
    ensures
        form_text(fields@) == availability_form(
            start_date@,
            visit_motive_ids@,
            agenda_ids@,
            practice_ids@,
        ),
{
    let mut fields: Vec<(String, String)> = Vec::new();
    fields.push((String::from_str("start_date"), start_date));
    fields.push((String::from_str("visit_motive_ids"), vec_to_param(visit_motive_ids)));
    fields.push((String::from_str("agenda_ids"), vec_to_param(agenda_ids)));
    fields.push((String::from_str("practice_ids"), vec_to_param(practice_ids)));
    fields.push((String::from_str("insurance_sector"), String::from_str("public")));
    fields.push((String::from_str("destroy_temporary"), String::from_str("true")));
    fields.push((String::from_str("limit"), String::from_str("2")));
    proof {
        assert(form_text(fields@) =~= availability_form(
            start_date@,
            visit_motive_ids@,
            agenda_ids@,
            practice_ids@,
        ));
    }
    fields
}

} // verus!
