//! The command that lists the languages.

use crate::config::Config;
use crate::hypervisor::languages::Languages;
use crate::text::{join_first, join_spec, texts};
use vstd::prelude::*;

verus! {

/// The items as a phrase: alone, joined by `and`, or, from three items on,
/// joined by commas with `and` before the last.
pub open spec fn join_with_and_spec(items: Seq<Seq<char>>) -> Seq<char> {
    if items.len() == 0 {
        Seq::empty()
    } else if items.len() == 1 {
        items[0]
    } else if items.len() == 2 {
        items[0] + " and "@ + items[1]
    } else {
        join_spec(items.drop_last(), ", "@) + ", and "@ + items.last()
    }
}

/// Each item between backticks.
pub open spec fn quoted(items: Seq<Seq<char>>) -> Seq<Seq<char>> {
    items.map_values(|item: Seq<char>| "`"@ + item + "`"@)
}

/// The canonical tags of the languages that `config` does not enable, in
/// registry order.
pub open spec fn disabled_tags(config: Config) -> Seq<Seq<char>> {
    Languages::all_spec().filter(|language: Languages| !config.enables(language)).map_values(
        |language: Languages| language.tag_spec(),
    )
}

/// What the command answers: the enabled languages as configured, the
/// disabled languages by their tags, and where to ask for another language.
pub open spec fn languages_spec(config: Config) -> Seq<char> {
    "Enabled languages: "@ + join_with_and_spec(quoted(texts(config.languages@)))
        + "\nDisabled languages: "@ + join_with_and_spec(quoted(disabled_tags(config)))
        + "\n-# Don't see your language here? Consider making a [Feature Request](<https://github.com/Fyko/run.sh/issues/new?assignees=&labels=language+request&projects=&template=language_request.yml&title=request%3A+>)\n"@
}

/// Joins a vector of strings with commas and an "and" at the end
pub fn join_vec_with_and(items: Vec<String>) -> (res: String)
    ensures
        res@ == join_with_and_spec(texts(items@)),
{
    let count = items.len();
    if count == 0 {
        String::new()
    } else if count == 1 {
        items[0].clone()
    } else if count == 2 {
        let mut out = items[0].clone();
        out.append(" and ");
        out.append(items[1].as_str());
        out
    } else {
        let mut out = join_first(&items, count - 1, ", ");
        out.append(", and ");
        out.append(items[count - 1].as_str());
        assert(texts(items@).take(count - 1) =~= texts(items@).drop_last());
        out
    }
}

/// `item` between backticks.
fn quote(item: &str) -> (res: String)
    ensures
        res@ == "`"@ + item@ + "`"@,
{
    let mut out = String::from_str("`");
    out.append(item);
    out.append("`");
    out
}

/// What the command answers under `config`.
pub fn languages(config: &Config) -> (res: String)
    ensures
        res@ == languages_spec(*config),
{
    let mut enabled: Vec<String> = Vec::new();
    let mut i: usize = 0;
    while i < config.languages.len()
        invariant
            i <= config.languages.len(),
            enabled@.len() == i,
            forall|j: int| 0 <= j < i ==> enabled@[j]@ == "`"@ + config.languages@[j]@ + "`"@,
        decreases config.languages.len() - i,
    {
        enabled.push(quote(config.languages[i].as_str()));
        i += 1;
    }
    assert(texts(enabled@) =~= quoted(texts(config.languages@)));
    let off = Languages::all_disabled(config);
    let mut disabled: Vec<String> = Vec::new();
    let mut k: usize = 0;
    while k < off.len()
        invariant
            k <= off.len(),
            disabled@.len() == k,
            forall|j: int| 0 <= j < k ==> disabled@[j]@ == "`"@ + off@[j].tag_spec() + "`"@,
        decreases off.len() - k,
    {
        disabled.push(quote(off[k].tag()));
        k += 1;
    }
    assert(texts(disabled@) =~= quoted(disabled_tags(*config)));
    let mut out = String::from_str("Enabled languages: ");
    out.append(join_vec_with_and(enabled).as_str());
    out.append("\nDisabled languages: ");
    out.append(join_vec_with_and(disabled).as_str());
    out.append(
        "\n-# Don't see your language here? Consider making a [Feature Request](<https://github.com/Fyko/run.sh/issues/new?assignees=&labels=language+request&projects=&template=language_request.yml&title=request%3A+>)\n",
    );
    out
}

} // verus!
