//! Application paths: `package.module` or `package.module:factory(arguments)`.
use vstd::prelude::*;

verus! {

/// The grammar of an application path, as a regular expression: a dotted
/// module path, optionally followed by `:`, the name of a factory and the
/// parenthesised text of its arguments.
pub open spec fn application_pattern() -> Seq<char> {
    "^((\\w+.)*|\\w+)(:(\\w+)(\\(.*\\)))?$"@
}

/// What compiling `pattern` with `regex::Regex::new` and then searching
/// `haystack` with `Regex::captures` gives: `None` where the pattern is refused,
/// `Some(None)` where it does not match, and otherwise the text of each capture
/// group in the order of its opening parenthesis (group 0 is the whole match),
/// `None` for a group that did not take part in the match.
pub uninterp spec fn regex_captures(pattern: Seq<char>, haystack: Seq<char>) -> Option<
    Option<Seq<Option<Seq<char>>>>,
>;

/// The text of an optional string.
pub open spec fn opt_text(o: Option<String>) -> Option<Seq<char>> {
    match o {
        Some(s) => Some(s@),
        None => None,
    }
}

/// The texts of a list of capture groups.
pub open spec fn group_texts(groups: Seq<Option<String>>) -> Seq<Option<Seq<char>>> {
    groups.map_values(|g: Option<String>| opt_text(g))
}

/// The text of group `i`, `None` where the group did not take part in the
/// match or does not exist.
pub open spec fn group_at(groups: Seq<Option<Seq<char>>>, i: int) -> Option<Seq<char>> {
    if 0 <= i < groups.len() {
        groups[i]
    } else {
        None
    }
}

/// The parts of an application path read off its capture groups: the module
/// (group 1), the factory name (group 4) and the argument text (group 5).
pub open spec fn parts_of_groups(groups: Seq<Option<Seq<char>>>) -> (
    Seq<char>,
    Option<Seq<char>>,
    Option<Seq<char>>,
) {
    (group_at(groups, 1).unwrap(), group_at(groups, 4), group_at(groups, 5))
}

/// The text of a parsed application path.
pub open spec fn parts_text(p: (String, Option<String>, Option<String>)) -> (
    Seq<char>,
    Option<Seq<char>>,
    Option<Seq<char>>,
) {
    (p.0@, opt_text(p.1), opt_text(p.2))
}

/// An application path is accepted where it matches the grammar and the
/// module group takes part in the match.
pub open spec fn is_application_path(application: Seq<char>) -> bool {
    &&& regex_captures(application_pattern(), application) matches Some(Some(groups))
    &&& group_at(groups, 1) is Some
}

/// The parts of an accepted application path.
pub open spec fn application_parts(application: Seq<char>) -> (
    Seq<char>,
    Option<Seq<char>>,
    Option<Seq<char>>,
) {
    parts_of_groups(regex_captures(application_pattern(), application).unwrap().unwrap())
}

#[verifier::external_type_specification]
#[verifier::external_body]
pub struct ExRegexError(regex::Error);

/// Compiles `pattern` with `regex::Regex::new` and, where that succeeds, runs
/// `Regex::captures` on `haystack`, handing back the text of every capture
/// group (`Captures::iter`, `Match::as_str`). The contract claims only that
/// the outcome is the one named by `regex_captures` for these two texts.
#[verifier::external_body]
fn capture_groups(pattern: &str, haystack: &str) -> (res: Result<
    Option<Vec<Option<String>>>,
    regex::Error,
>)
    ensures
        res is Err <==> regex_captures(pattern@, haystack@) is None,
        res matches Ok(found) ==> regex_captures(pattern@, haystack@) == Some(
            match found {
                Some(groups) => Some(group_texts(groups@)),
                None => None,
            },
        ),
{
    let re = regex::Regex::new(pattern)?;
    let caps = match re.captures(haystack) {
        Some(caps) => caps,
        None => return Ok(None),
    };
    let mut groups = Vec::new();
    for group in caps.iter() {
        groups.push(
            match group {
                Some(m) => Some(m.as_str().to_string()),
                None => None,
            },
        );
    }
    Ok(Some(groups))
}

fn copy_text(o: &Option<String>) -> (res: Option<String>)
    ensures
        opt_text(res) == opt_text(*o),
{
    match o {
        Some(s) => Some(s.clone()),
        None => None,
    }
}

fn group_of(groups: &Vec<Option<String>>, i: usize) -> (res: Option<String>)
    ensures
        opt_text(res) == group_at(group_texts(groups@), i as int),
{
    if i < groups.len() {
        copy_text(&groups[i])
    } else {
        None
    }
}

/// Reads the module (group 1), the factory name (group 4) and the argument
/// text (group 5) off the capture groups of an application path.
pub fn parts_from_groups(groups: &Vec<Option<String>>) -> (res: (
    String,
    Option<String>,
    Option<String>,
))
    requires
        group_at(group_texts(groups@), 1) is Some,
    ensures
        parts_text(res) == parts_of_groups(group_texts(groups@)),
        res.0@ == groups@[1].unwrap()@,
        opt_text(res.1) == (if groups@.len() > 4 {
            opt_text(groups@[4])
        } else {
            None
        }),
        opt_text(res.2) == (if groups@.len() > 5 {
            opt_text(groups@[5])
        } else {
            None
        }),
{
    proof {
        lemma_parts_are_capture_groups(group_texts(groups@));
    }
    let module = match group_of(groups, 1) {
        Some(m) => m,
        None => String::new(),
    };
    (module, group_of(groups, 4), group_of(groups, 5))
}

/// Splits an application path into its module, the optional name of an
/// application factory and the optional text of the factory's arguments.
pub fn parse_application_path(application: String) -> (res: (
    String,
    Option<String>,
    Option<String>,
))
    requires
        is_application_path(application@),
    ensures
        parts_text(res) == application_parts(application@),
        res.0@ == regex_captures(application_pattern(), application@).unwrap().unwrap()[1].unwrap(),
{
    proof {
        lemma_module_is_group_one(application@);
    }
    let pattern = "^((\\w+.)*|\\w+)(:(\\w+)(\\(.*\\)))?$";
    match capture_groups(pattern, application.as_str()) {
        Ok(Some(groups)) => parts_from_groups(&groups),
        _ => (String::new(), None, None),
    }
}

/// `parse_application_path` on the paths that it accepts, `None` on the others.
pub fn try_parse_application_path(application: String) -> (res: Option<
    (String, Option<String>, Option<String>),
>)
    ensures
        res is Some <==> is_application_path(application@),
        res matches Some(p) ==> parts_text(p) == application_parts(application@),
{
    let pattern = "^((\\w+.)*|\\w+)(:(\\w+)(\\(.*\\)))?$";
    let accepted = match capture_groups(pattern, application.as_str()) {
        Ok(Some(groups)) => {
            proof {
                assert(group_texts(groups@).len() == groups@.len());
            }
            1 < groups.len() && groups[1].is_some()
        },
        _ => false,
    };
    if accepted {
        Some(parse_application_path(application))
    } else {
        None
    }
}

/// How an application is found in its module.
#[derive(Debug, Clone, PartialEq, Eq)]
pub enum ApplicationTarget {
    /// Call the factory of this name, with no arguments.
    Factory(String),
    /// Take the attribute of this name as it is.
    Attribute(String),
}

/// Where a module's application is to be found: the named factory when a
/// callable was given, else the module's `application` attribute.
pub fn application_target(callable: Option<String>) -> (res: ApplicationTarget)
    ensures
        match callable {
            Some(name) => res matches ApplicationTarget::Factory(f) && f@ == name@,
            None => res matches ApplicationTarget::Attribute(a) && a@ == "application"@,
        },
{
    match callable {
        Some(name) => ApplicationTarget::Factory(name),
        None => ApplicationTarget::Attribute("application".to_owned()),
    }
}

/// The module of an application path is the whole text of capture group 1,
/// the factory name that of group 4 and the argument text that of group 5
/// (absent where the group is), whatever the other groups hold.
pub proof fn lemma_parts_are_capture_groups(groups: Seq<Option<Seq<char>>>)
    requires
        groups.len() > 1,
        groups[1] is Some,
    ensures
        parts_of_groups(groups).0 == groups[1].unwrap(),
        parts_of_groups(groups).1 == (if groups.len() > 4 {
            groups[4]
        } else {
            None
        }),
        parts_of_groups(groups).2 == (if groups.len() > 5 {
            groups[5]
        } else {
            None
        }),
{
}

/// The module of an accepted application path is exactly the text that the
/// grammar's group 1 captured in it.
pub proof fn lemma_module_is_group_one(application: Seq<char>)
    requires
        is_application_path(application),
    ensures
        application_parts(application).0 == regex_captures(
            application_pattern(),
            application,
        ).unwrap().unwrap()[1].unwrap(),
{
    lemma_parts_are_capture_groups(
        regex_captures(application_pattern(), application).unwrap().unwrap(),
    );
}

} // verus!
