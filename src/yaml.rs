//! A YAML document as a tree of plain values, with lookup and `$name` substitution.
use vstd::prelude::*;

use crate::text::{chars_of, is_white_space, is_ws, replace_all, replace_chars, same_text, string_of, trim, trim_bounds};

verus! {

/// A YAML value. Numbers keep the text serde_yaml prints for them; tags are dropped.
#[derive(Debug)]
pub enum YamlNode {
    Null,
    Bool(bool),
    Number(String),
    Str(String),
    List(Vec<YamlNode>),
    Dict(Vec<(YamlNode, YamlNode)>),
}

#[verifier::external_type_specification]
#[verifier::external_body]
pub struct ExYamlValue(serde_yaml::Value);

/// The tree serde_yaml reads from a text, or nothing when the text is not a YAML document.
pub uninterp spec fn yaml_document_of(text: Seq<char>) -> Option<YamlNode>;

/// Relies on `serde_yaml::from_str` into a `serde_yaml::Value`: the tree depends on the text
/// alone. The error is kept as serde_yaml prints it.
#[verifier::external_body]
fn load_document(text: &str) -> (r: Result<YamlNode, String>)
    ensures
        match r {
            Ok(n) => yaml_document_of(text@) == Some(n),
            Err(_) => yaml_document_of(text@) is None,
        },
{
    match serde_yaml::from_str::<serde_yaml::Value>(text) {
        Ok(v) => Ok(node_of(v)),
        Err(e) => Err(e.to_string()),
    }
}

/// Turns serde_yaml's value into the library's tree, variant by variant.
#[verifier::external_body]
fn node_of(v: serde_yaml::Value) -> YamlNode {
    match v {
        serde_yaml::Value::Null => YamlNode::Null,
        serde_yaml::Value::Bool(b) => YamlNode::Bool(b),
        serde_yaml::Value::Number(n) => YamlNode::Number(n.to_string()),
        serde_yaml::Value::String(s) => YamlNode::Str(s),
        serde_yaml::Value::Sequence(s) => YamlNode::List(s.into_iter().map(node_of).collect()),
        serde_yaml::Value::Mapping(m) => YamlNode::Dict(m.into_iter().map(|(k, v)| (node_of(k), node_of(v))).collect()),
        serde_yaml::Value::Tagged(t) => node_of(t.value),
    }
}

/// Reads a YAML document.
pub fn parse_document(text: &str) -> (r: Result<YamlNode, String>)
    ensures
        match r {
            Ok(n) => yaml_document_of(text@) == Some(n),
            Err(_) => yaml_document_of(text@) is None,
        },
{
    load_document(text)
}

/// Whether `k` is the string `key`.
pub open spec fn is_key(k: YamlNode, key: Seq<char>) -> bool {
    k matches YamlNode::Str(s) && s@ == key
}

/// The value of the first entry whose key is the string `key`.
pub open spec fn lookup(m: Seq<(YamlNode, YamlNode)>, key: Seq<char>) -> Option<YamlNode>
    decreases m.len(),
{
    if m.len() == 0 {
        None
    } else if is_key(m[0].0, key) {
        Some(m[0].1)
    } else {
        lookup(m.drop_first(), key)
    }
}

pub fn key_is(k: &YamlNode, key: &str) -> (r: bool)
    ensures
        r == is_key(*k, key@),
{
    match k {
        YamlNode::Str(s) => same_text(s.as_str(), key),
        _ => false,
    }
}

/// The position of the first entry whose key is `key`.
pub fn find_key(m: &Vec<(YamlNode, YamlNode)>, key: &str) -> (r: Option<usize>)
    ensures
        match r {
            Some(i) => i < m@.len() && lookup(m@, key@) == Some(m@[i as int].1),
            None => lookup(m@, key@) is None,
        },
{
    let n = m.len();
    let mut i: usize = 0;
    assert(m@.subrange(0, n as int) =~= m@);
    while i < n
        invariant
            n == m@.len(),
            i <= n,
            lookup(m@, key@) == lookup(m@.subrange(i as int, n as int), key@),
        decreases n - i,
    {
        if key_is(&m[i].0, key) {
            return Some(i);
        }
        assert(m@.subrange(i as int, n as int).drop_first() =~= m@.subrange(i + 1, n as int));
        i += 1;
    }
    None
}

/// The position of the first entry whose key is the text `key`.
pub fn find_key_text(m: &Vec<(YamlNode, YamlNode)>, key: &Vec<char>) -> (r: Option<usize>)
    ensures
        match r {
            Some(i) => i < m@.len() && lookup(m@, key@) == Some(m@[i as int].1),
            None => lookup(m@, key@) is None,
        },
{
    let k = string_of(key);
    find_key(m, k.as_str())
}

/// The name a variable is declared under.
pub open spec fn var_name(k: YamlNode) -> Seq<char> {
    match k {
        YamlNode::Str(s) => s@,
        _ => Seq::empty(),
    }
}

/// The text a scalar stands for when it is substituted inside a string.
pub open spec fn scalar_text(v: YamlNode) -> Option<Seq<char>> {
    match v {
        YamlNode::Str(s) => Some(s@),
        YamlNode::Number(t) => Some(t@),
        YamlNode::Bool(b) => Some(
            if b {
                "true"@
            } else {
                "false"@
            },
        ),
        _ => None,
    }
}

/// `s` with each `$name` replaced by the text of the scalar variable `name`, one variable
/// after the other in the order of declaration.
pub open spec fn inline(s: Seq<char>, vars: Seq<(YamlNode, YamlNode)>) -> Seq<char>
    decreases vars.len(),
{
    if vars.len() == 0 {
        s
    } else {
        let next = match scalar_text(vars[0].1) {
            Some(t) => replace_all(s, seq!['$'] + var_name(vars[0].0), t),
            None => s,
        };
        inline(next, vars.drop_first())
    }
}

/// The variable a string names as a whole: its trimmed form is `$name` with no white space.
pub open spec fn direct_name(s: Seq<char>) -> Option<Seq<char>> {
    let t = trim(s);
    if t.len() > 0 && t[0] == '$' && !has_ws(t) {
        Some(t.drop_first())
    } else {
        None
    }
}

/// The value that stands at `n` once substitution is applied (when `sub` holds), and whether
/// substitution still applies below it: a whole-value reference yields the variable's value
/// as written.
pub open spec fn target(n: YamlNode, sub: bool, vars: Seq<(YamlNode, YamlNode)>) -> (YamlNode, bool) {
    if sub && n is Str {
        match direct_name(n->Str_0@) {
            Some(name) => match lookup(vars, name) {
                Some(v) => (v, false),
                None => (n, sub),
            },
            None => (n, sub),
        }
    } else {
        (n, sub)
    }
}

/// The text at `n` after substitution, when it is a string.
pub open spec fn text_value(n: YamlNode, sub: bool, vars: Seq<(YamlNode, YamlNode)>) -> Option<
    Seq<char>,
> {
    let (m, s) = target(n, sub, vars);
    match m {
        YamlNode::Str(t) => Some(
            if s {
                inline(t@, vars)
            } else {
                t@
            },
        ),
        _ => None,
    }
}

/// The boolean at `n` after substitution.
pub open spec fn bool_value(n: YamlNode, sub: bool, vars: Seq<(YamlNode, YamlNode)>) -> Option<bool> {
    match target(n, sub, vars).0 {
        YamlNode::Bool(b) => Some(b),
        _ => None,
    }
}

/// Whether `n` is null after substitution.
pub open spec fn null_value(n: YamlNode, sub: bool, vars: Seq<(YamlNode, YamlNode)>) -> bool {
    target(n, sub, vars).0 is Null
}

/// The entries of the mapping at `n` after substitution, with whether substitution applies
/// inside it.
pub open spec fn dict_value(n: YamlNode, sub: bool, vars: Seq<(YamlNode, YamlNode)>) -> Option<
    (Seq<(YamlNode, YamlNode)>, bool),
> {
    let (m, s) = target(n, sub, vars);
    match m {
        YamlNode::Dict(e) => Some((e@, s)),
        _ => None,
    }
}

/// Whether `s` holds white space.
pub open spec fn has_ws(s: Seq<char>) -> bool {
    exists|k: int| 0 <= k < s.len() && is_ws(#[trigger] s[k])
}

/// Whether the characters `cs[from..to]` hold white space.
fn has_white_space(cs: &Vec<char>, from: usize, to: usize) -> (r: bool)
    requires
        from <= to <= cs@.len(),
    ensures
        r == has_ws(cs@.subrange(from as int, to as int)),
{
    let mut i: usize = from;
    while i < to
        invariant
            from <= i <= to <= cs@.len(),
            forall|k: int| from <= k < i ==> !is_ws(#[trigger] cs@[k]),
        decreases to - i,
    {
        if is_white_space(cs[i]) {
            assert(is_ws(cs@.subrange(from as int, to as int)[i - from]));
            return true;
        }
        i += 1;
    }
    assert forall|k: int| 0 <= k < cs@.subrange(from as int, to as int).len() implies !is_ws(
        #[trigger] cs@.subrange(from as int, to as int)[k],
    ) by {
        assert(!is_ws(cs@[from + k]));
    }
    false
}

/// The variable a string names as a whole, if any.
pub fn direct_reference(s: &str) -> (r: Option<Vec<char>>)
    ensures
        match r {
            Some(name) => direct_name(s@) == Some(name@),
            None => direct_name(s@) is None,
        },
{
    let cs = chars_of(s);
    let (a, b) = trim_bounds(&cs);
    if a < b && cs[a] == '$' && !has_white_space(&cs, a, b) {
        let mut name: Vec<char> = Vec::new();
        let mut i: usize = a + 1;
        while i < b
            invariant
                a < i <= b <= cs@.len(),
                name@ == cs@.subrange(a + 1, i as int),
            decreases b - i,
        {
            name.push(cs[i]);
            assert(cs@.subrange(a + 1, i + 1) =~= cs@.subrange(a + 1, i as int).push(cs@[i as int]));
            i += 1;
        }
        assert(cs@.subrange(a as int, b as int).drop_first() =~= cs@.subrange(a + 1, b as int));
        Some(name)
    } else {
        None
    }
}

/// The text of a scalar, for substitution inside a string.
fn scalar_chars(v: &YamlNode) -> (r: Option<Vec<char>>)
    ensures
        match r {
            Some(t) => scalar_text(*v) == Some(t@),
            None => scalar_text(*v) is None,
        },
{
    match v {
        YamlNode::Str(s) => Some(chars_of(s.as_str())),
        YamlNode::Number(t) => Some(chars_of(t.as_str())),
        YamlNode::Bool(b) => {
            if *b {
                Some(chars_of("true"))
            } else {
                Some(chars_of("false"))
            }
        },
        _ => None,
    }
}

/// Inline substitution of every scalar variable into `s`.
pub fn inline_text(s: &str, vars: &Vec<(YamlNode, YamlNode)>) -> (r: String)
    ensures
        r@ == inline(s@, vars@),
{
    let mut cur = chars_of(s);
    let n = vars.len();
    let mut i: usize = 0;
    assert(vars@.subrange(0, n as int) =~= vars@);
    while i < n
        invariant
            n == vars@.len(),
            i <= n,
            inline(cur@, vars@.subrange(i as int, n as int)) == inline(s@, vars@),
        decreases n - i,
    {
        let ghost rest = vars@.subrange(i as int, n as int);
        assert(rest.drop_first() =~= vars@.subrange(i + 1, n as int));
        match scalar_chars(&vars[i].1) {
            Some(t) => {
                let mut pat: Vec<char> = Vec::new();
                pat.push('$');
                match &vars[i].0 {
                    YamlNode::Str(k) => {
                        let kc = chars_of(k.as_str());
                        let mut j: usize = 0;
                        while j < kc.len()
                            invariant
                                j <= kc@.len(),
                                pat@ == seq!['$'] + kc@.subrange(0, j as int),
                            decreases kc@.len() - j,
                        {
                            pat.push(kc[j]);
                            assert(kc@.subrange(0, j + 1) =~= kc@.subrange(0, j as int).push(
                                kc@[j as int],
                            ));
                            assert(pat@ =~= seq!['$'] + kc@.subrange(0, j + 1));
                            j += 1;
                        }
                        assert(kc@.subrange(0, kc@.len() as int) =~= kc@);
                    },
                    _ => {
                        assert(pat@ =~= seq!['$'] + Seq::<char>::empty());
                    },
                }
                cur = replace_chars(&cur, &pat, &t);
            },
            None => {},
        }
        i += 1;
    }
    assert(vars@.subrange(n as int, n as int) =~= Seq::<(YamlNode, YamlNode)>::empty());
    string_of(&cur)
}

/// The value that stands at `n` once substitution is applied; see `target`.
pub fn target_of<'a>(n: &'a YamlNode, sub: bool, vars: &'a Vec<(YamlNode, YamlNode)>) -> (r: (
    &'a YamlNode,
    bool,
))
    ensures
        (*r.0, r.1) == target(*n, sub, vars@),
{
    if sub {
        match n {
            YamlNode::Str(s) => {
                match direct_reference(s.as_str()) {
                    Some(name) => match find_key_text(vars, &name) {
                        Some(i) => (&vars[i].1, false),
                        None => (n, sub),
                    },
                    None => (n, sub),
                }
            },
            _ => (n, sub),
        }
    } else {
        (n, sub)
    }
}

/// The text at `n` after substitution, when it is a string.
pub fn text_at(n: &YamlNode, sub: bool, vars: &Vec<(YamlNode, YamlNode)>) -> (r: Option<String>)
    ensures
        match r {
            Some(t) => text_value(*n, sub, vars@) == Some(t@),
            None => text_value(*n, sub, vars@) is None,
        },
{
    let (m, s) = target_of(n, sub, vars);
    match m {
        YamlNode::Str(t) => {
            if s {
                Some(inline_text(t.as_str(), vars))
            } else {
                Some(t.clone())
            }
        },
        _ => None,
    }
}

/// The boolean at `n` after substitution.
pub fn bool_at(n: &YamlNode, sub: bool, vars: &Vec<(YamlNode, YamlNode)>) -> (r: Option<bool>)
    ensures
        r == bool_value(*n, sub, vars@),
{
    let (m, _) = target_of(n, sub, vars);
    match m {
        YamlNode::Bool(b) => Some(*b),
        _ => None,
    }
}

/// Whether `n` is null after substitution.
pub fn null_at(n: &YamlNode, sub: bool, vars: &Vec<(YamlNode, YamlNode)>) -> (r: bool)
    ensures
        r == null_value(*n, sub, vars@),
{
    let (m, _) = target_of(n, sub, vars);
    match m {
        YamlNode::Null => true,
        _ => false,
    }
}

/// The mapping at `n` after substitution.
pub fn dict_at<'a>(n: &'a YamlNode, sub: bool, vars: &'a Vec<(YamlNode, YamlNode)>) -> (r: Option<
    (&'a Vec<(YamlNode, YamlNode)>, bool),
>)
    ensures
        match r {
            Some(p) => dict_value(*n, sub, vars@) == Some((p.0@, p.1)),
            None => dict_value(*n, sub, vars@) is None,
        },
{
    let (m, s) = target_of(n, sub, vars);
    match m {
        YamlNode::Dict(e) => Some((e, s)),
        _ => None,
    }
}

} // verus!
