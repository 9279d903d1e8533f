//! The annotation's argument list: `field = size` and `typ = Name` entries,
//! separated by commas, read into an [`Args`] configuration.
use vstd::prelude::*;

verus! {

/// One token of an annotation's argument list, as the compiler hands it over.
#[derive(Debug, PartialEq, Eq)]
pub enum Token {
    /// An identifier or keyword, as written (`name`, `typ`, `true`).
    Ident(String),
    /// One punctuation character (`=`, `,`).
    Punct(char),
    /// A literal, as written (`4`, `0x10u8`, `"abc"`).
    Literal(String),
    /// A delimited group (`( .. )`, `[ .. ]`, `{ .. }`); no accepted entry holds one.
    Group,
}

/// Whether syn's `LitInt` parser reads the whole of `text` as one integer literal.
pub uninterp spec fn int_literal(text: Seq<char>) -> bool;

/// Relies on syn's `LitInt` parser (through `syn::parse_str`): whether it reads
/// the whole text as one integer literal. Besides the literal itself (suffix,
/// base prefix and underscores included) it lets through surrounding
/// whitespace and comments and a leading `-`, also with a space after it; a
/// literal token from the compiler holds none of these.
#[verifier::external_body]
fn is_int_literal(text: &String) -> (r: bool)
    ensures
        r == int_literal(text@),
{
    syn::parse_str::<syn::LitInt>(text).is_ok()
}

/// `s` spells the word `w`.
pub(crate) fn is_word(s: &String, w: &str) -> (r: bool)
    ensures
        r == (s@ == w@),
{
    let word = String::from_str(w);
    *s == word
}

/// `w` is `_` or a keyword: the compiler hands it over as an identifier
/// token, but it cannot stand as a field name or a type name. (`self`,
/// `Self`, `super` and `crate` can, as one-segment paths.)
pub open spec fn is_reserved_word(w: Seq<char>) -> bool {
    w == "_"@
    || w == "abstract"@
    || w == "as"@
    || w == "async"@
    || w == "await"@
    || w == "become"@
    || w == "box"@
    || w == "break"@
    || w == "const"@
    || w == "continue"@
    || w == "do"@
    || w == "dyn"@
    || w == "else"@
    || w == "enum"@
    || w == "extern"@
    || w == "false"@
    || w == "final"@
    || w == "fn"@
    || w == "for"@
    || w == "if"@
    || w == "impl"@
    || w == "in"@
    || w == "let"@
    || w == "loop"@
    || w == "macro"@
    || w == "match"@
    || w == "mod"@
    || w == "move"@
    || w == "mut"@
    || w == "override"@
    || w == "priv"@
    || w == "pub"@
    || w == "ref"@
    || w == "return"@
    || w == "static"@
    || w == "struct"@
    || w == "trait"@
    || w == "true"@
    || w == "try"@
    || w == "type"@
    || w == "typeof"@
    || w == "unsafe"@
    || w == "unsized"@
    || w == "use"@
    || w == "virtual"@
    || w == "where"@
    || w == "while"@
    || w == "yield"@
}

/// Whether `s` is `_` or a keyword that cannot stand as a name.
fn reserved_word(s: &String) -> (r: bool)
    ensures
        r == is_reserved_word(s@),
{
    is_word(s, "_")
    || is_word(s, "abstract")
    || is_word(s, "as")
    || is_word(s, "async")
    || is_word(s, "await")
    || is_word(s, "become")
    || is_word(s, "box")
    || is_word(s, "break")
    || is_word(s, "const")
    || is_word(s, "continue")
    || is_word(s, "do")
    || is_word(s, "dyn")
    || is_word(s, "else")
    || is_word(s, "enum")
    || is_word(s, "extern")
    || is_word(s, "false")
    || is_word(s, "final")
    || is_word(s, "fn")
    || is_word(s, "for")
    || is_word(s, "if")
    || is_word(s, "impl")
    || is_word(s, "in")
    || is_word(s, "let")
    || is_word(s, "loop")
    || is_word(s, "macro")
    || is_word(s, "match")
    || is_word(s, "mod")
    || is_word(s, "move")
    || is_word(s, "mut")
    || is_word(s, "override")
    || is_word(s, "priv")
    || is_word(s, "pub")
    || is_word(s, "ref")
    || is_word(s, "return")
    || is_word(s, "static")
    || is_word(s, "struct")
    || is_word(s, "trait")
    || is_word(s, "true")
    || is_word(s, "try")
    || is_word(s, "type")
    || is_word(s, "typeof")
    || is_word(s, "unsafe")
    || is_word(s, "unsized")
    || is_word(s, "use")
    || is_word(s, "virtual")
    || is_word(s, "where")
    || is_word(s, "while")
    || is_word(s, "yield")
}

/// `typ` is no reserved word.
proof fn lemma_typ_word_not_reserved()
    ensures
        !is_reserved_word(typ_word()),
{
    reveal_strlit("typ");
    reveal_strlit("_");
    reveal_strlit("abstract");
    reveal_strlit("as");
    reveal_strlit("async");
    reveal_strlit("await");
    reveal_strlit("become");
    reveal_strlit("box");
    reveal_strlit("break");
    reveal_strlit("const");
    reveal_strlit("continue");
    reveal_strlit("do");
    reveal_strlit("dyn");
    reveal_strlit("else");
    reveal_strlit("enum");
    reveal_strlit("extern");
    reveal_strlit("false");
    reveal_strlit("final");
    reveal_strlit("fn");
    reveal_strlit("for");
    reveal_strlit("if");
    reveal_strlit("impl");
    reveal_strlit("in");
    reveal_strlit("let");
    reveal_strlit("loop");
    reveal_strlit("macro");
    reveal_strlit("match");
    reveal_strlit("mod");
    reveal_strlit("move");
    reveal_strlit("mut");
    reveal_strlit("override");
    reveal_strlit("priv");
    reveal_strlit("pub");
    reveal_strlit("ref");
    reveal_strlit("return");
    reveal_strlit("static");
    reveal_strlit("struct");
    reveal_strlit("trait");
    reveal_strlit("true");
    reveal_strlit("try");
    reveal_strlit("type");
    reveal_strlit("typeof");
    reveal_strlit("unsafe");
    reveal_strlit("unsized");
    reveal_strlit("use");
    reveal_strlit("virtual");
    reveal_strlit("where");
    reveal_strlit("while");
    reveal_strlit("yield");
    assert("typ"@.len() != "_"@.len());
    assert("typ"@.len() != "abstract"@.len());
    assert("typ"@.len() != "as"@.len());
    assert("typ"@.len() != "async"@.len());
    assert("typ"@.len() != "await"@.len());
    assert("typ"@.len() != "become"@.len());
    assert("typ"@[0] != "box"@[0]);
    assert("typ"@.len() != "break"@.len());
    assert("typ"@.len() != "const"@.len());
    assert("typ"@.len() != "continue"@.len());
    assert("typ"@.len() != "do"@.len());
    assert("typ"@[0] != "dyn"@[0]);
    assert("typ"@.len() != "else"@.len());
    assert("typ"@.len() != "enum"@.len());
    assert("typ"@.len() != "extern"@.len());
    assert("typ"@.len() != "false"@.len());
    assert("typ"@.len() != "final"@.len());
    assert("typ"@.len() != "fn"@.len());
    assert("typ"@[0] != "for"@[0]);
    assert("typ"@.len() != "if"@.len());
    assert("typ"@.len() != "impl"@.len());
    assert("typ"@.len() != "in"@.len());
    assert("typ"@[0] != "let"@[0]);
    assert("typ"@.len() != "loop"@.len());
    assert("typ"@.len() != "macro"@.len());
    assert("typ"@.len() != "match"@.len());
    assert("typ"@[0] != "mod"@[0]);
    assert("typ"@.len() != "move"@.len());
    assert("typ"@[0] != "mut"@[0]);
    assert("typ"@.len() != "override"@.len());
    assert("typ"@.len() != "priv"@.len());
    assert("typ"@[0] != "pub"@[0]);
    assert("typ"@[0] != "ref"@[0]);
    assert("typ"@.len() != "return"@.len());
    assert("typ"@.len() != "static"@.len());
    assert("typ"@.len() != "struct"@.len());
    assert("typ"@.len() != "trait"@.len());
    assert("typ"@.len() != "true"@.len());
    assert("typ"@[1] != "try"@[1]);
    assert("typ"@.len() != "type"@.len());
    assert("typ"@.len() != "typeof"@.len());
    assert("typ"@.len() != "unsafe"@.len());
    assert("typ"@.len() != "unsized"@.len());
    assert("typ"@[0] != "use"@[0]);
    assert("typ"@.len() != "virtual"@.len());
    assert("typ"@.len() != "where"@.len());
    assert("typ"@.len() != "while"@.len());
    assert("typ"@.len() != "yield"@.len());
}

/// The fixed-capacity type that replaces a string field when no `typ` is given.
pub open spec fn default_typ() -> Seq<char> {
    "ArrayString"@
}

/// The reserved name of the entry that picks the replacement type.
pub open spec fn typ_word() -> Seq<char> {
    "typ"@
}

/// What one `left = right` entry of the argument list says.
pub enum Entry {
    /// `field = size`: the field's capacity, as its literal is written.
    Size(Seq<char>, Seq<char>),
    /// `typ = Name`: the replacement type.
    Typ(Seq<char>),
    /// Neither `Ident = Int` nor `typ = Ident`.
    Malformed,
    /// `name = Ident` where `name` is not `typ`.
    NotTyp,
}

/// Reads the entry `left = right`, where `right_is_int` tells whether `right`
/// is an integer literal.
pub open spec fn entry_given(left: Token, right: Token, right_is_int: bool) -> Entry {
    match (left, right) {
        (Token::Ident(k), Token::Literal(v)) => {
            if is_reserved_word(k@) || !right_is_int {
                Entry::Malformed
            } else {
                Entry::Size(k@, v@)
            }
        },
        (Token::Ident(k), Token::Ident(v)) => {
            if is_reserved_word(k@) || is_reserved_word(v@) {
                Entry::Malformed
            } else if k@ == typ_word() {
                Entry::Typ(v@)
            } else {
                Entry::NotTyp
            }
        },
        _ => Entry::Malformed,
    }
}

/// Reads the entry `left = right`.
pub open spec fn entry_of(left: Token, right: Token) -> Entry {
    entry_given(left, right, right matches Token::Literal(v) && int_literal(v@))
}

/// One accepted entry of an argument list.
#[derive(Debug, PartialEq, Eq)]
pub enum Assignment {
    /// `field = size`, the size as its literal is written.
    Size { field: String, size: String },
    /// `typ = Name`.
    Typ(String),
}

/// Reads the entry `left = right` that starts at token `at`, where
/// `right_is_int` tells whether `right` is an integer literal.
pub fn read_entry(left: &Token, right: &Token, right_is_int: bool, at: usize) -> (r: Result<Assignment, ArgsError>)
    ensures
        match entry_given(*left, *right, right_is_int) {
            Entry::Size(k, v) => r matches Ok(Assignment::Size { field, size }) && field@ == k && size@ == v,
            Entry::Typ(n) => r matches Ok(Assignment::Typ(t)) && t@ == n,
            Entry::Malformed => r == Err::<Assignment, ArgsError>(ArgsError::MalformedArgument { at }),
            Entry::NotTyp => r == Err::<Assignment, ArgsError>(ArgsError::InvalidTypAssignment { at }),
        },
{
    match left {
        Token::Ident(k) => {
            if reserved_word(k) {
                return Err(ArgsError::MalformedArgument { at });
            }
            match right {
                Token::Literal(v) => {
                    if !right_is_int {
                        return Err(ArgsError::MalformedArgument { at });
                    }
                    Ok(Assignment::Size { field: k.clone(), size: v.clone() })
                },
                Token::Ident(v) => {
                    if reserved_word(v) {
                        return Err(ArgsError::MalformedArgument { at });
                    }
                    if !is_word(k, "typ") {
                        return Err(ArgsError::InvalidTypAssignment { at });
                    }
                    Ok(Assignment::Typ(v.clone()))
                },
                _ => Err(ArgsError::MalformedArgument { at }),
            }
        },
        _ => Err(ArgsError::MalformedArgument { at }),
    }
}

/// The configuration as a value.
pub struct ArgsView {
    /// The capacity of each named field, as its literal is written.
    pub sizes: Map<Seq<char>, Seq<char>>,
    /// The name of the fixed-capacity type.
    pub typ: Seq<char>,
}

/// The configuration of an empty argument list.
pub open spec fn empty_args() -> ArgsView {
    ArgsView { sizes: Map::empty(), typ: default_typ() }
}

/// Why an argument list was rejected; `at` is the index of the first token of
/// the offending entry.
#[derive(Debug, Clone, Copy, PartialEq, Eq, Structural)]
pub enum ArgsError {
    /// An entry is neither `Ident = Int` nor `typ = Ident`.
    MalformedArgument { at: usize },
    /// An entry `name = Ident` whose `name` is not `typ`.
    InvalidTypAssignment { at: usize },
}

/// The diagnostic that every rejected argument list reports.
pub open spec fn error_message() -> Seq<char> {
    "Must specify an Ident=Int or typ=Structname"@
}

impl ArgsError {
    /// The diagnostic to report at the offending entry; both kinds of error
    /// name the two accepted shapes.
    pub fn message(&self) -> (r: String)
        ensures
            r@ == error_message(),
    {
        String::from_str("Must specify an Ident=Int or typ=Structname")
    }

    /// The index of the first token of the offending entry.
    pub fn at(&self) -> (r: usize)
        ensures
            r == match *self {
                ArgsError::MalformedArgument { at } => at,
                ArgsError::InvalidTypAssignment { at } => at,
            },
    {
        match self {
            ArgsError::MalformedArgument { at } => *at,
            ArgsError::InvalidTypAssignment { at } => *at,
        }
    }
}

/// `t[i]` starts an entry `t[i] = t[i + 2]` that ends the list or is followed by a comma.
pub open spec fn entry_shape_at(t: Seq<Token>, i: int) -> bool {
    &&& i + 3 <= t.len()
    &&& t[i + 1] == Token::Punct('=')
    &&& i + 3 < t.len() ==> t[i + 3] == Token::Punct(',')
}

/// Reads the entries from token `i` on, left to right, starting from the
/// configuration `a`; a later entry overrides an earlier one.
pub open spec fn parse_from(t: Seq<Token>, i: int, a: ArgsView) -> Result<ArgsView, ArgsError>
    decreases t.len() + 1 - i,
{
    if i < 0 || i >= t.len() {
        Ok(a)
    } else if !entry_shape_at(t, i) {
        Err(ArgsError::MalformedArgument { at: #[verifier::truncate] (i as usize) })
    } else {
        match entry_of(t[i], t[i + 2]) {
            Entry::Size(k, v) => parse_from(t, i + 4, ArgsView { sizes: a.sizes.insert(k, v), typ: a.typ }),
            Entry::Typ(n) => parse_from(t, i + 4, ArgsView { sizes: a.sizes, typ: n }),
            Entry::Malformed => Err(ArgsError::MalformedArgument { at: #[verifier::truncate] (i as usize) }),
            Entry::NotTyp => Err(ArgsError::InvalidTypAssignment { at: #[verifier::truncate] (i as usize) }),
        }
    }
}

/// What a whole argument list reads as.
pub open spec fn parse_spec(t: Seq<Token>) -> Result<ArgsView, ArgsError> {
    parse_from(t, 0, empty_args())
}

/// The map that a list of `(field, size)` assignments builds, a later
/// assignment to a field overriding an earlier one.
pub open spec fn map_of(entries: Seq<(String, String)>) -> Map<Seq<char>, Seq<char>>
    decreases entries.len(),
{
    if entries.len() == 0 {
        Map::empty()
    } else {
        map_of(entries.drop_last()).insert(entries.last().0@, entries.last().1@)
    }
}

/// A parsed argument list: the capacity for each named field and the name of
/// the fixed-capacity type.
#[derive(Debug)]
pub struct Args {
    /// The `(field, size)` assignments in the order given.
    size_map: Vec<(String, String)>,
    typ: String,
}

impl View for Args {
    type V = ArgsView;

    closed spec fn view(&self) -> ArgsView {
        ArgsView { sizes: map_of(self.size_map@), typ: self.typ@ }
    }
}

impl Args {
    /// The configuration of an empty argument list: no sizes, the default type.
    pub fn new() -> (r: Args)
        ensures
            r@ == empty_args(),
    {
        let r = Args { size_map: Vec::new(), typ: String::from_str("ArrayString") };
        assert(r@.sizes =~= Map::empty());
        r
    }

    /// The name of the fixed-capacity type.
    pub fn typ(&self) -> (r: &String)
        ensures
            r@ == self@.typ,
    {
        &self.typ
    }

    /// The capacity given for `field`, if any.
    pub fn size_of(&self, field: &String) -> (r: Option<&String>)
        ensures
            r is Some == self@.sizes.contains_key(field@),
            r matches Some(n) ==> n@ == self@.sizes[field@],
    {
        let ghost s = self.size_map@;
        let mut found: Option<&String> = None;
        let n = self.size_map.len();
        let mut i: usize = 0;
        while i < n
            invariant
                i <= n,
                n == s.len(),
                s == self.size_map@,
                found is Some == map_of(s.take(i as int)).contains_key(field@),
                found matches Some(v) ==> v@ == map_of(s.take(i as int))[field@],
            decreases n - i,
        {
            assert(s.take(i + 1).drop_last() =~= s.take(i as int));
            if self.size_map[i].0 == *field {
                found = Some(&self.size_map[i].1);
            }
            i = i + 1;
        }
        assert(s.take(n as int) =~= s);
        found
    }

    /// Records `field = size`, overriding an earlier size of `field`.
    fn set_size(&mut self, field: String, size: String)
        ensures
            final(self)@ == (ArgsView { sizes: old(self)@.sizes.insert(field@, size@), typ: old(self)@.typ }),
    {
        let ghost s = self.size_map@;
        self.size_map.push((field, size));
        assert(self.size_map@.drop_last() =~= s);
    }

    /// Reads an argument list: comma-separated entries `field = size`, where
    /// `size` is an integer literal, and `typ = Name`, left to right, a later
    /// entry overriding an earlier one; a trailing comma is allowed. Any other
    /// entry rejects the whole list.
    pub fn parse(tokens: &Vec<Token>) -> (r: Result<Args, ArgsError>)
        ensures
            match r {
                Ok(a) => parse_spec(tokens@) == Ok::<ArgsView, ArgsError>(a@),
                Err(e) => parse_spec(tokens@) == Err::<ArgsView, ArgsError>(e),
            },
    {
        let mut args = Args::new();
        let n = tokens.len();
        let mut i: usize = 0;
        while i < n
            invariant
                i <= n,
                n == tokens@.len(),
                parse_spec(tokens@) == parse_from(tokens@, i as int, args@),
            decreases n - i,
        {
            let ghost t = tokens@;
            if n - i < 3 {
                return Err(ArgsError::MalformedArgument { at: i });
            }
            let eq = match &tokens[i + 1] {
                Token::Punct(c) => *c == '=',
                _ => false,
            };
            let sep = n - i == 3 || match &tokens[i + 3] {
                Token::Punct(c) => *c == ',',
                _ => false,
            };
            if !eq || !sep {
                return Err(ArgsError::MalformedArgument { at: i });
            }
            assert(entry_shape_at(t, i as int));
            let right_is_int = match &tokens[i + 2] {
                Token::Literal(v) => is_int_literal(v),
                _ => false,
            };
            match read_entry(&tokens[i], &tokens[i + 2], right_is_int, i) {
                Ok(Assignment::Size { field, size }) => args.set_size(field, size),
                Ok(Assignment::Typ(name)) => args.typ = name,
                Err(e) => return Err(e),
            }
            let ghost next = i + 4;
            i = if n - i == 3 { n } else { i + 4 };
            assert(parse_from(t, next, args@) == parse_from(t, i as int, args@));
        }
        Ok(args)
    }
}

/// No entry of `t` from `i` on picks the type: no identifier `typ` there is
/// followed by `=` and an identifier.
pub open spec fn no_typ_entry_from(t: Seq<Token>, i: int) -> bool {
    forall|j: int|
        i <= j && j + 2 < t.len() ==> !(#[trigger] t[j] matches Token::Ident(k) && k@ == typ_word()
            && t[j + 1] == Token::Punct('=') && t[j + 2] is Ident)
}

/// Entries from `i` on that never pick the type keep the replacement type.
proof fn lemma_typ_kept_from(t: Seq<Token>, i: int, a: ArgsView)
    requires
        0 <= i,
        no_typ_entry_from(t, i),
        parse_from(t, i, a) is Ok,
    ensures
        parse_from(t, i, a)->Ok_0.typ == a.typ,
    decreases t.len() + 1 - i,
{
    if i < t.len() {
        match entry_of(t[i], t[i + 2]) {
            Entry::Size(k, v) => {
                lemma_typ_kept_from(t, i + 4, ArgsView { sizes: a.sizes.insert(k, v), typ: a.typ });
            },
            Entry::Typ(n) => {
                assert(t[i] matches Token::Ident(k) && k@ == typ_word());
            },
            _ => {},
        }
    }
}

/// An argument list without a `typ = Name` entry picks the default type.
pub proof fn lemma_default_typ(t: Seq<Token>)
    requires
        no_typ_entry_from(t, 0),
        parse_spec(t) is Ok,
    ensures
        parse_spec(t)->Ok_0.typ == default_typ(),
{
    lemma_typ_kept_from(t, 0, empty_args());
}

/// The entries of `t` from `i` on read the same after four more tokens in
/// front, and keep the replacement type where none of them picks the type.
proof fn lemma_parse_after_prefix(p: Seq<Token>, t: Seq<Token>, i: int, a: ArgsView, name: Seq<char>)
    requires
        p.len() == 4,
        0 <= i,
        no_typ_entry_from(t, i),
        parse_from(t, i, a) is Ok,
    ensures
        parse_from(p + t, i + 4, ArgsView { sizes: a.sizes, typ: name })
            == Ok::<ArgsView, ArgsError>(ArgsView { sizes: parse_from(t, i, a)->Ok_0.sizes, typ: name }),
    decreases t.len() + 1 - i,
{
    let u = p + t;
    assert(forall|j: int| 0 <= j < t.len() ==> u[j + 4] == t[j]);
    if i < t.len() {
        assert(entry_shape_at(u, i + 4) == entry_shape_at(t, i));
        match entry_of(t[i], t[i + 2]) {
            Entry::Size(k, v) => {
                lemma_parse_after_prefix(p, t, i + 4, ArgsView { sizes: a.sizes.insert(k, v), typ: a.typ }, name);
            },
            Entry::Typ(n) => {
                assert(t[i] matches Token::Ident(k) && k@ == typ_word());
            },
            _ => {},
        }
    }
}

/// An entry `typ = name` picks `name` as the replacement type: put in front of
/// an argument list with no other `typ = Name` entry, it keeps that list's
/// sizes and replaces the default type by `name`.
pub proof fn lemma_typ_entry_picks_type(typ_kw: String, name: String, t: Seq<Token>)
    requires
        typ_kw@ == typ_word(),
        !is_reserved_word(name@),
        no_typ_entry_from(t, 0),
        parse_spec(t) is Ok,
    ensures
        parse_spec(seq![Token::Ident(typ_kw), Token::Punct('='), Token::Ident(name), Token::Punct(',')] + t)
            == Ok::<ArgsView, ArgsError>(ArgsView { sizes: parse_spec(t)->Ok_0.sizes, typ: name@ }),
{
    let p = seq![Token::Ident(typ_kw), Token::Punct('='), Token::Ident(name), Token::Punct(',')];
    let u = p + t;
    lemma_typ_word_not_reserved();
    assert(u[0] == p[0] && u[1] == p[1] && u[2] == p[2] && u[3] == p[3]);
    assert(entry_shape_at(u, 0));
    assert(entry_of(u[0], u[2]) == Entry::Typ(name@));
    lemma_parse_after_prefix(p, t, 0, empty_args(), name@);
}

/// Reading `p + u` passes over the complete entries of `p` (a list that is
/// empty or ends in a comma) as reading `p` does, and goes on at `u`.
proof fn lemma_parse_through_prefix(p: Seq<Token>, u: Seq<Token>, i: int, a: ArgsView)
    requires
        0 <= i <= p.len(),
        i < p.len() ==> p.last() == Token::Punct(','),
        parse_from(p, i, a) is Ok,
    ensures
        parse_from(p + u, i, a) == parse_from(p + u, p.len() as int, parse_from(p, i, a)->Ok_0),
    decreases p.len() + 1 - i,
{
    let t = p + u;
    assert(forall|j: int| 0 <= j < p.len() ==> t[j] == p[j]);
    if i < p.len() {
        if i + 3 == p.len() {
            assert(p[i + 2] == Token::Punct(','));
            assert(entry_of(p[i], p[i + 2]) == Entry::Malformed);
        } else {
            assert(entry_shape_at(t, i) == entry_shape_at(p, i));
            match entry_of(p[i], p[i + 2]) {
                Entry::Size(k, v) => {
                    lemma_parse_through_prefix(p, u, i + 4, ArgsView { sizes: a.sizes.insert(k, v), typ: a.typ });
                },
                Entry::Typ(n) => {
                    lemma_parse_through_prefix(p, u, i + 4, ArgsView { sizes: a.sizes, typ: n });
                },
                _ => {},
            }
        }
    }
}

/// An entry that is neither `Ident = Int` nor `typ = Ident` (its left side is
/// not an identifier, its right side is neither an identifier nor an integer
/// literal, or one side is `_` or a keyword) rejects the whole list, wherever
/// it stands and whatever follows it.
pub proof fn lemma_malformed_entry_rejected(p: Seq<Token>, left: Token, right: Token, rest: Seq<Token>)
    requires
        p.len() > 0 ==> p.last() == Token::Punct(','),
        parse_spec(p) is Ok,
        entry_of(left, right) == Entry::Malformed,
    ensures
        parse_spec(p + (seq![left, Token::Punct('='), right] + rest))
            == Err::<ArgsView, ArgsError>(ArgsError::MalformedArgument { at: #[verifier::truncate] (p.len() as usize) }),
{
    let e = seq![left, Token::Punct('='), right] + rest;
    let t = p + e;
    lemma_parse_through_prefix(p, e, 0, empty_args());
    let n = p.len() as int;
    assert(t[n] == left && t[n + 1] == Token::Punct('=') && t[n + 2] == right);
    if n + 3 < t.len() {
        assert(t[n + 3] == e[3]);
    }
}

} // verus!
