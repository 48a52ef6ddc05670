use vstd::prelude::*;
use vstd::string::*;

verus! {

/// A character that may start an identifier.
pub open spec fn is_ident_start(c: char) -> bool {
    ('a' <= c && c <= 'z') || ('A' <= c && c <= 'Z') || c == '_'
}

/// A character that may continue an identifier.
pub open spec fn is_ident_continue(c: char) -> bool {
    is_ident_start(c) || ('0' <= c && c <= '9')
}

/// A reserved word of Rust, which cannot name a method or a parameter.
pub open spec fn is_keyword(s: Seq<char>) -> bool {
    s == "abstract"@
        || s == "as"@
        || s == "async"@
        || s == "await"@
        || s == "become"@
        || s == "box"@
        || s == "break"@
        || s == "const"@
        || s == "continue"@
        || s == "crate"@
        || s == "do"@
        || s == "dyn"@
        || s == "else"@
        || s == "enum"@
        || s == "extern"@
        || s == "false"@
        || s == "final"@
        || s == "fn"@
        || s == "for"@
        || s == "if"@
        || s == "impl"@
        || s == "in"@
        || s == "let"@
        || s == "loop"@
        || s == "macro"@
        || s == "match"@
        || s == "mod"@
        || s == "move"@
        || s == "mut"@
        || s == "override"@
        || s == "priv"@
        || s == "pub"@
        || s == "ref"@
        || s == "return"@
        || s == "Self"@
        || s == "self"@
        || s == "static"@
        || s == "struct"@
        || s == "super"@
        || s == "trait"@
        || s == "true"@
        || s == "try"@
        || s == "type"@
        || s == "typeof"@
        || s == "unsafe"@
        || s == "unsized"@
        || s == "use"@
        || s == "virtual"@
        || s == "where"@
        || s == "while"@
        || s == "yield"@
}

/// An ASCII identifier: a letter or underscore, then letters, digits or
/// underscores; neither a lone underscore nor a reserved word.
pub open spec fn is_ident(s: Seq<char>) -> bool {
    &&& !is_keyword(s)
    &&& s.len() > 0
    &&& is_ident_start(s[0])
    &&& forall|i: int| 0 <= i < s.len() ==> #[trigger] is_ident_continue(s[i])
    &&& s != seq!['_']
}

/// Whether two strings hold the same characters.
pub fn same_text(a: &str, b: &str) -> (r: bool)
    ensures
        r == (a@ == b@),
{
    let n = a.unicode_len();
    if n != b.unicode_len() {
        return false;
    }
    let mut i: usize = 0;
    while i < n
        invariant
            n == a@.len(),
            n == b@.len(),
            i <= n,
            a@.subrange(0, i as int) == b@.subrange(0, i as int),
        decreases n - i,
    {
        if a.get_char(i) != b.get_char(i) {
            return false;
        }
        assert(a@.subrange(0, i + 1) == a@.subrange(0, i as int).push(a@[i as int]));
        assert(b@.subrange(0, i + 1) == b@.subrange(0, i as int).push(b@[i as int]));
        i = i + 1;
    }
    assert(a@ == a@.subrange(0, n as int));
    assert(b@ == b@.subrange(0, n as int));
    true
}

fn ident_start_char(c: char) -> (r: bool)
    ensures
        r == is_ident_start(c),
{
    ('a' <= c && c <= 'z') || ('A' <= c && c <= 'Z') || c == '_'
}

fn ident_continue_char(c: char) -> (r: bool)
    ensures
        r == is_ident_continue(c),
{
    ident_start_char(c) || ('0' <= c && c <= '9')
}

/// Whether `s` is a reserved word of Rust.
pub fn keyword(s: &str) -> (r: bool)
    ensures
        r == is_keyword(s@),
{
    same_text(s, "abstract")
        || same_text(s, "as")
        || same_text(s, "async")
        || same_text(s, "await")
        || same_text(s, "become")
        || same_text(s, "box")
        || same_text(s, "break")
        || same_text(s, "const")
        || same_text(s, "continue")
        || same_text(s, "crate")
        || same_text(s, "do")
        || same_text(s, "dyn")
        || same_text(s, "else")
        || same_text(s, "enum")
        || same_text(s, "extern")
        || same_text(s, "false")
        || same_text(s, "final")
        || same_text(s, "fn")
        || same_text(s, "for")
        || same_text(s, "if")
        || same_text(s, "impl")
        || same_text(s, "in")
        || same_text(s, "let")
        || same_text(s, "loop")
        || same_text(s, "macro")
        || same_text(s, "match")
        || same_text(s, "mod")
        || same_text(s, "move")
        || same_text(s, "mut")
        || same_text(s, "override")
        || same_text(s, "priv")
        || same_text(s, "pub")
        || same_text(s, "ref")
        || same_text(s, "return")
        || same_text(s, "Self")
        || same_text(s, "self")
        || same_text(s, "static")
        || same_text(s, "struct")
        || same_text(s, "super")
        || same_text(s, "trait")
        || same_text(s, "true")
        || same_text(s, "try")
        || same_text(s, "type")
        || same_text(s, "typeof")
        || same_text(s, "unsafe")
        || same_text(s, "unsized")
        || same_text(s, "use")
        || same_text(s, "virtual")
        || same_text(s, "where")
        || same_text(s, "while")
        || same_text(s, "yield")
}

/// Whether `s` is a usable identifier.
pub fn valid_ident(s: &str) -> (r: bool)
    ensures
        r == is_ident(s@),
{
    if keyword(s) {
        return false;
    }
    let n = s.unicode_len();
    if n == 0 {
        return false;
    }
    if !ident_start_char(s.get_char(0)) {
        return false;
    }
    if n == 1 && s.get_char(0) == '_' {
        assert(s@ =~= seq!['_']);
        return false;
    }
    let mut i: usize = 0;
    while i < n
        invariant
            n == s@.len(),
            i <= n,
            forall|k: int| 0 <= k < i ==> #[trigger] is_ident_continue(s@[k]),
        decreases n - i,
    {
        if !ident_continue_char(s.get_char(i)) {
            return false;
        }
        i = i + 1;
    }
    assert(s@ != seq!['_']) by {
        if s@ == seq!['_'] {
            assert(s@.len() == 1 && s@[0] == '_');
        }
    }
    true
}

} // verus!
