use vstd::prelude::*;
use crate::dict::{dict_lookup, Dict, DictView};
use crate::object::{GlobalObject, ObjectType};

verus! {

#[verifier::external_type_specification]
#[verifier::external_body]
pub struct ExRegex(regex::Regex);

#[verifier::external_type_specification]
#[verifier::external_body]
pub struct ExRegexError(regex::Error);

/// Whether `pattern` is a regular expression that the `regex` crate accepts.
pub uninterp spec fn regex_compiles(pattern: Seq<char>) -> bool;

/// Whether the regular expression `pattern` matches somewhere in `haystack`,
/// as the `regex` crate decides it.
pub uninterp spec fn regex_is_match(pattern: Seq<char>, haystack: Seq<char>) -> bool;

/// A compiled regular expression together with the text it was compiled from.
/// Values are only ever made by `compile_pattern`, which compiles the text.
#[derive(Debug)]
pub struct Pattern {
    source: String,
    regex: regex::Regex,
}

impl View for Pattern {
    type V = Seq<char>;

    /// A pattern is viewed as the text it was compiled from.
    closed spec fn view(&self) -> Seq<char> {
        self.source@
    }
}

/// A pattern that the `regex` crate refused, with its text.
#[derive(Debug, PartialEq, Eq)]
pub struct PatternError {
    pub pattern: String,
}

/// Compiles `source` with `regex::Regex::new`.
/// Trusted: the call succeeds exactly on the texts that `regex_compiles`
/// names, and the pattern made keeps `source` as its text, so that it is
/// matched as that text.
#[verifier::external_body]
fn compile_pattern(source: &str) -> (r: Result<Pattern, regex::Error>)
    ensures
        r is Ok <==> regex_compiles(source@),
        r matches Ok(p) ==> p@ == source@,
{
    match regex::Regex::new(source) {
        Ok(regex) => Ok(Pattern { source: source.to_string(), regex }),
        Err(e) => Err(e),
    }
}

/// Searches `haystack` with the compiled regex of `p` (`regex::Regex::is_match`).
/// Trusted: the answer is `regex_is_match` of the pattern's text and the haystack;
/// this relies on `p` having been compiled from its text by `compile_pattern`.
#[verifier::external_body]
fn pattern_is_match(p: &Pattern, haystack: &str) -> (r: bool)
    ensures
        r == regex_is_match(p@, haystack@),
{
    p.regex.is_match(haystack)
}

impl Pattern {
    /// Compiles `source` into a pattern, or reports it as refused.
    pub fn new(source: &str) -> (r: Result<Pattern, PatternError>)
        ensures
            r is Ok <==> regex_compiles(source@),
            match r {
                Ok(p) => p@ == source@,
                Err(e) => e.pattern@ == source@,
            },
    {
        match compile_pattern(source) {
            Ok(p) => Ok(p),
            Err(_) => Err(PatternError { pattern: String::from_str(source) }),
        }
    }

    /// The text this pattern was compiled from.
    pub fn source(&self) -> (s: &String)
        ensures
            s@ == self@,
    {
        &self.source
    }

    /// Whether this pattern matches somewhere in `haystack`.
    pub fn is_match(&self, haystack: &str) -> (r: bool)
        ensures
            r == regex_is_match(self@, haystack@),
    {
        pattern_is_match(self, haystack)
    }
}

/// The texts of a list of patterns.
pub open spec fn pattern_texts(patterns: Seq<Pattern>) -> Seq<Seq<char>> {
    patterns.map_values(|p: Pattern| p@)
}

/// Whether some pattern of `patterns` matches somewhere in `s`.
pub open spec fn matches_any(patterns: Seq<Seq<char>>, s: Seq<char>) -> bool {
    exists|i: int| 0 <= i < patterns.len() && regex_is_match(#[trigger] patterns[i], s)
}

// === Non-PW

/// Whether any of `patterns` matches somewhere in `s`.
pub fn string_matches_any_pattern(s: String, patterns: &Vec<Pattern>) -> (r: bool)
    ensures
        r == matches_any(pattern_texts(patterns@), s@),
{
    let n = patterns.len();
    let mut i: usize = 0;
    while i < n
        invariant
            n == patterns.len(),
            0 <= i <= n,
            forall|j: int| 0 <= j < i ==> !regex_is_match(#[trigger] pattern_texts(patterns@)[j], s@),
        decreases n - i,
    {
        if patterns[i].is_match(s.as_str()) {
            assert(regex_is_match(pattern_texts(patterns@)[i as int], s@));
            return true;
        }
        i = i + 1;
    }
    false
}

/// Whether every text of `patterns` compiles.
pub open spec fn all_compile(patterns: Seq<String>) -> bool {
    forall|i: int| 0 <= i < patterns.len() ==> regex_compiles(#[trigger] patterns[i]@)
}

/// Compiles each text of `patterns`, in order.
pub fn patterns_to_regexes(patterns: &Vec<String>) -> (r: Vec<Pattern>)
    requires
        all_compile(patterns@),
    ensures
        r.len() == patterns.len(),
        forall|i: int| 0 <= i < r.len() ==> #[trigger] r@[i]@ == patterns@[i]@,
{
    let n = patterns.len();
    let mut out: Vec<Pattern> = Vec::new();
    let mut i: usize = 0;
    while i < n
        invariant
            n == patterns.len(),
            0 <= i <= n,
            all_compile(patterns@),
            out.len() == i,
            forall|j: int| 0 <= j < i ==> #[trigger] out@[j]@ == patterns@[j]@,
        decreases n - i,
    {
        assert(regex_compiles(patterns@[i as int]@));
        match Pattern::new(patterns[i].as_str()) {
            Ok(p) => {
                out.push(p);
            },
            Err(_) => {
                assert(false);
            },
        }
        i = i + 1;
    }
    out
}

/// Compiles each text of `patterns`, in order, or reports the first text that
/// does not compile.
pub fn try_patterns_to_regexes(patterns: &Vec<String>) -> (r: Result<Vec<Pattern>, PatternError>)
    ensures
        r is Ok <==> all_compile(patterns@),
        match r {
            Ok(v) => v.len() == patterns.len()
                && forall|i: int| 0 <= i < v.len() ==> #[trigger] v@[i]@ == patterns@[i]@,
            Err(e) => exists|k: int| 0 <= k < patterns.len()
                && !regex_compiles(#[trigger] patterns@[k]@)
                && e.pattern@ == patterns@[k]@
                && forall|j: int| 0 <= j < k ==> regex_compiles(#[trigger] patterns@[j]@),
        },
{
    let n = patterns.len();
    let mut i: usize = 0;
    while i < n
        invariant
            n == patterns.len(),
            0 <= i <= n,
            forall|j: int| 0 <= j < i ==> regex_compiles(#[trigger] patterns@[j]@),
        decreases n - i,
    {
        match Pattern::new(patterns[i].as_str()) {
            Ok(_) => {},
            Err(e) => {
                return Err(e);
            },
        }
        i = i + 1;
    }
    Ok(patterns_to_regexes(patterns))
}

// === PW-related

/// Whether the property `key` of `props` is present and matched by some pattern.
pub open spec fn prop_matches(props: DictView, key: Seq<char>, patterns: Seq<Seq<char>>) -> bool {
    match dict_lookup(props, key) {
        Some(value) => matches_any(patterns, value),
        None => false,
    }
}

/// Whether a node with properties `props` is selected by `patterns`: by its
/// `application.name`, or, where `match_description` asks for it, also by its
/// `node.description`.
pub open spec fn node_matches(props: DictView, patterns: Seq<Seq<char>>, match_description: bool) -> bool {
    prop_matches(props, "application.name"@, patterns)
        || (match_description && prop_matches(props, "node.description"@, patterns))
}

/// Node selection: without `match_description` a node is selected exactly when
/// some pattern matches its application name; with it, exactly when some
/// pattern matches its application name or its description. In particular a
/// matching application name selects the node whatever `match_description` is,
/// and asking to match descriptions never deselects a node.
pub proof fn lemma_node_selection(props: DictView, patterns: Seq<Seq<char>>)
    ensures
        node_matches(props, patterns, false) <==> selected_by(props, "application.name"@, patterns),
        node_matches(props, patterns, true) <==> selected_by(props, "application.name"@, patterns)
            || selected_by(props, "node.description"@, patterns),
        selected_by(props, "application.name"@, patterns) ==> node_matches(props, patterns, true),
        node_matches(props, patterns, false) ==> node_matches(props, patterns, true),
{
    lemma_selected_by(props, "application.name"@, patterns);
    lemma_selected_by(props, "node.description"@, patterns);
}

/// Whether some pattern matches the value of the property `key` of `props`,
/// said with the lookup and the regex match alone.
pub open spec fn selected_by(props: DictView, key: Seq<char>, patterns: Seq<Seq<char>>) -> bool {
    exists|v: Seq<char>, i: int|
        dict_lookup(props, key) == Some(v) && 0 <= i < patterns.len() && #[trigger] regex_is_match(patterns[i], v)
}

/// `prop_matches` is `selected_by`.
proof fn lemma_selected_by(props: DictView, key: Seq<char>, patterns: Seq<Seq<char>>)
    ensures
        prop_matches(props, key, patterns) == selected_by(props, key, patterns),
{
    if prop_matches(props, key, patterns) {
        let v = dict_lookup(props, key)->0;
        let i = choose|i: int| 0 <= i < patterns.len() && regex_is_match(#[trigger] patterns[i], v);
        assert(regex_is_match(patterns[i], v));
    }
}

/// Whether the property `key` of `props` is present and matched by one of `patterns`.
fn dict_prop_matches(props: &Dict, key: &str, patterns: &Vec<Pattern>) -> (r: bool)
    ensures
        r == prop_matches(props@, key@, pattern_texts(patterns@)),
{
    match props.get(key) {
        Some(value) => string_matches_any_pattern(value.clone(), patterns),
        None => false,
    }
}

/// Whether a node (which must carry properties) is selected by `patterns`,
/// by its application name or, with `match_description`, its description.
pub fn pw_node_matches_regexes(node: &GlobalObject, patterns: &Vec<Pattern>, match_description: bool) -> (r: bool)
    requires
        node.props is Some,
    ensures
        r == node_matches(node@.props->0, pattern_texts(patterns@), match_description),
{
    let props = node.props.as_ref().unwrap();
    if dict_prop_matches(props, "application.name", patterns) {
        return true;
    }
    match_description && dict_prop_matches(props, "node.description", patterns)
}

/// Whether a node is an audio output stream: its `media.class` is `Stream/Output/Audio`.
pub open spec fn node_is_readable(props: Option<DictView>) -> bool {
    match props {
        Some(p) => dict_lookup(p, "media.class"@) == Some("Stream/Output/Audio"@),
        None => false,
    }
}

/// A node is readable exactly when it has properties and the first
/// `media.class` among them is `Stream/Output/Audio`: any other class, a
/// missing class or missing properties make it unreadable.
pub proof fn lemma_readable_nodes(props: Option<DictView>, class: Seq<char>)
    ensures
        node_is_readable(None) == false,
        props is Some ==> (node_is_readable(props) <==> dict_lookup(props->0, "media.class"@) == Some(
            "Stream/Output/Audio"@,
        )),
        props is Some && dict_lookup(props->0, "media.class"@) == Some(class) && class != "Stream/Output/Audio"@
            ==> !node_is_readable(props),
        props is Some && dict_lookup(props->0, "media.class"@) is None ==> !node_is_readable(props),
{
}

/// Whether a node is an audio output stream, as its `media.class` says.
pub fn pw_node_is_readable(node: &GlobalObject) -> (r: bool)
    ensures
        r == node_is_readable(node@.props),
{
    match &node.props {
        Some(props) => match props.get("media.class") {
            Some(class) => crate::dict::str_equal(class.as_str(), "Stream/Output/Audio"),
            None => false,
        },
        None => false,
    }
}

/// Whether a global object is a node.
pub fn pw_object_is_node(go: &GlobalObject) -> (r: bool)
    ensures
        r == (go.type_ == ObjectType::Node),
{
    go.type_ == ObjectType::Node
}

} // verus!
