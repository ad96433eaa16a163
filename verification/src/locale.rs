//! The user's locale, from the operating system or from the environment.
use vstd::prelude::*;
use crate::text::{spec_trim, spec_before, spec_trim_end_ws, spec_trim_start_ws, trim, before_char};

verus! {

/// The locale reported when none can be found.
pub open spec fn default_locale() -> Seq<char> {
    "en-US"@
}

/// The environment variables a locale is read from, most specific first.
pub fn locale_env_keys() -> (r: Vec<String>)
    ensures
        r@.len() == 3,
        r@[0]@ == "LC_ALL"@,
        r@[1]@ == "LC_CTYPE"@,
        r@[2]@ == "LANG"@,
{
    let mut keys: Vec<String> = Vec::new();
    keys.push(String::from_str("LC_ALL"));
    keys.push(String::from_str("LC_CTYPE"));
    keys.push(String::from_str("LANG"));
    keys
}

/// The locale a variable's value names: the value trimmed, cut at the
/// first `.` (the codeset) and then at the first `@` (the modifier), and
/// trimmed again. `en_US.UTF-8@euro` names `en_US`.
pub open spec fn spec_locale_of(value: Seq<char>) -> Seq<char> {
    spec_trim(spec_before(spec_before(spec_trim(value), '.'), '@'))
}

/// The first variable, in order, whose value names a non-empty locale.
/// `None` stands for a variable that is unset or not Unicode.
pub open spec fn spec_locale_from_values(values: Seq<Option<String>>) -> Option<Seq<char>>
    decreases values.len(),
{
    if values.len() == 0 {
        None
    } else {
        let rest = spec_locale_from_values(values.drop_first());
        match values[0] {
            Some(v) => if spec_trim(v@).len() == 0 {
                rest
            } else if spec_locale_of(v@).len() > 0 {
                Some(spec_locale_of(v@))
            } else {
                rest
            },
            None => rest,
        }
    }
}

/// A variable's value that names a non-empty locale.
pub open spec fn spec_names_locale(value: Option<String>) -> bool {
    value matches Some(v) && spec_locale_of(v@).len() > 0
}

proof fn lemma_blank_names_nothing(v: Seq<char>)
    requires
        spec_trim(v).len() == 0,
    ensures
        spec_locale_of(v).len() == 0,
{
    let e = spec_trim(v);
    assert(spec_before(e, '.') == e);
    assert(spec_before(e, '@') == e);
    assert(spec_trim_end_ws(e) == e);
    assert(spec_trim_start_ws(e) == e);
}

/// Law: the first variable, in the order given, that names a non-empty
/// locale decides the answer, whatever the later ones say; with none, there
/// is no locale.
pub proof fn lemma_first_named_locale_wins(values: Seq<Option<String>>)
    ensures
        forall|k: int|
            0 <= k < values.len() && spec_names_locale(#[trigger] values[k]) && (forall|j: int|
                0 <= j < k ==> !spec_names_locale(values[j])) ==> spec_locale_from_values(values) == Some(
                spec_locale_of(values[k]->Some_0@),
            ),
        (forall|j: int| 0 <= j < values.len() ==> !spec_names_locale(#[trigger] values[j]))
            ==> spec_locale_from_values(values) is None,
    decreases values.len(),
{
    if values.len() > 0 {
        let rest = values.drop_first();
        lemma_first_named_locale_wins(rest);
        if let Some(v) = values[0] {
            if spec_trim(v@).len() == 0 {
                lemma_blank_names_nothing(v@);
            }
        }
        assert forall|k: int|
            0 <= k < values.len() && spec_names_locale(#[trigger] values[k]) && (forall|j: int|
                0 <= j < k ==> !spec_names_locale(values[j])) implies spec_locale_from_values(values) == Some(
            spec_locale_of(values[k]->Some_0@),
        ) by {
            if k > 0 {
                assert(!spec_names_locale(values[0]));
                assert(rest[k - 1] == values[k]);
                assert forall|j: int| 0 <= j < k - 1 implies !spec_names_locale(rest[j]) by {
                    assert(rest[j] == values[j + 1]);
                }
            }
        }
        assert((forall|j: int| 0 <= j < values.len() ==> !spec_names_locale(#[trigger] values[j]))
            ==> spec_locale_from_values(values) is None) by {
            if forall|j: int| 0 <= j < values.len() ==> !spec_names_locale(#[trigger] values[j]) {
                assert(!spec_names_locale(values[0]));
                assert forall|j: int| 0 <= j < rest.len() implies !spec_names_locale(#[trigger] rest[j]) by {
                    assert(rest[j] == values[j + 1]);
                }
            }
        }
    }
}

/// The locale named by the values of the locale variables (see
/// [`locale_env_keys`] for their order).
pub fn locale_from_env(values: &Vec<Option<String>>) -> (r: Option<String>)
    ensures
        match r {
            Some(s) => spec_locale_from_values(values@) == Some(s@),
            None => spec_locale_from_values(values@) is None,
        },
{
    let n = values.len();
    let mut i: usize = 0;
    assert(values@.skip(0) =~= values@);
    while i < n
        invariant
            n == values@.len(),
            i <= n,
            spec_locale_from_values(values@) == spec_locale_from_values(values@.skip(i as int)),
        decreases n - i,
    {
        proof {
            assert(values@.skip(i as int).drop_first() =~= values@.skip(i + 1));
            assert(values@.skip(i as int)[0] == values@[i as int]);
        }
        match &values[i] {
            Some(value) => {
                let trimmed = trim(value.as_str());
                if trimmed.unicode_len() > 0 {
                    let codeset_cut = before_char(trimmed.as_str(), '.');
                    let modifier_cut = before_char(codeset_cut.as_str(), '@');
                    let locale = trim(modifier_cut.as_str());
                    if locale.unicode_len() > 0 {
                        return Some(locale);
                    }
                }
            },
            None => {},
        }
        i = i + 1;
    }
    proof {
        assert(values@.skip(i as int) =~= Seq::<Option<String>>::empty());
    }
    None
}

/// The locale found, or the default.
pub fn locale_or_default(found: Option<String>) -> (r: String)
    ensures
        match found {
            Some(s) => r@ == s@,
            None => r@ == default_locale(),
        },
{
    match found {
        Some(s) => s,
        None => String::from_str("en-US"),
    }
}

/// `sys_locale::get_locale`: the most preferred locale of the system.
///
/// The answer depends on the machine and its environment, so nothing is
/// promised of it.
#[verifier::external_body]
fn system_locale() -> Option<String> {
    sys_locale::get_locale()
}

/// `sys_locale::get_locales`, collected: the system's preferred locales,
/// most preferred first.
///
/// The answer depends on the machine and its environment, so nothing is
/// promised of it.
#[verifier::external_body]
fn system_locales() -> Vec<String> {
    sys_locale::get_locales().collect()
}

/// The system's preferred locale, or `en-US` when it has none.
pub fn locale_get_string() -> (r: String) {
    locale_or_default(system_locale())
}

/// The locale list reported to Roc, given what the system listed and, when
/// it listed nothing, its preferred locale: the system's list unchanged
/// when it is not empty, otherwise the single preferred locale (or the
/// default when there is none).
pub fn locales_or_fallback(locales: Vec<String>, preferred: Option<String>) -> (r: Vec<String>)
    ensures
        locales@.len() > 0 ==> r@ == locales@,
        locales@.len() == 0 ==> r@.len() == 1 && match preferred {
            Some(p) => r@[0]@ == p@,
            None => r@[0]@ == default_locale(),
        },
{
    if locales.len() == 0 {
        let mut fallback: Vec<String> = Vec::new();
        fallback.push(locale_or_default(preferred));
        fallback
    } else {
        locales
    }
}

/// The system's preferred locales; never empty, since a system that
/// lists none reports its preferred locale (or the default) instead.
pub fn locale_all_strings() -> (r: Vec<String>)
    ensures
        r@.len() >= 1,
{
    let locales = system_locales();
    let preferred = if locales.len() == 0 {
        system_locale()
    } else {
        None
    };
    locales_or_fallback(locales, preferred)
}

/// The result of asking for the preferred locale, which always succeeds.
pub fn try_locale_get_ok(value: String) -> (r: Result<String, ()>)
    ensures
        r == Ok::<String, ()>(value),
{
    Ok(value)
}

} // verus!
