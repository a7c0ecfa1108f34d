//! What a pattern install has to decide before anything is written: the
//! base name, the version, the validator's verdict and a name that no
//! installed pattern has.

use vstd::prelude::*;
use vstd::string::*;
use cygrind_utils::parser::{Prefabs, Tokens};
use crate::effects::texts;
use crate::text::{decimal, decimal_string, lemma_decimal_injective, same_text};

verus! {

/// The display form of the semantic version that a text parses to; none
/// where `semver::Version::parse` rejects the text.
pub uninterp spec fn semver_canonical(text: Seq<char>) -> Option<Seq<char>>;

/// The lines of a text as `str::lines` yields them.
pub uninterp spec fn text_lines(text: Seq<char>) -> Seq<Seq<char>>;

/// The tokens that the lexer of `cygrind_utils` finds on a line, each by its
/// kind.
pub uninterp spec fn pattern_tokens(line: Seq<char>) -> Seq<TokenKind>;

/// What `cygrind_utils::validate` says of a text: acceptance, or the display
/// form of its error.
pub uninterp spec fn pattern_verdict(text: Seq<char>) -> Result<(), Seq<char>>;

/// The kind of a token of a pattern.
#[derive(Clone, Copy, Debug, PartialEq, Eq, Structural)]
pub enum TokenKind {
    /// A height.
    Number,
    /// The prefab that stands for none, `0`.
    Blank,
    /// Any other prefab.
    Prefab,
    /// No token of a pattern.
    Unknown,
}

impl TokenKind {
    /// Whether the validator takes the token for a height: a number, or the
    /// prefab that stands for none.
    pub open spec fn is_height(self) -> bool {
        self == TokenKind::Number || self == TokenKind::Blank
    }

    /// Whether the validator takes the token for a prefab: anything but what
    /// is no token.
    pub open spec fn is_prefab(self) -> bool {
        self != TokenKind::Unknown
    }

    /// Whether the validator takes the token for a height.
    pub fn height(self) -> (r: bool)
        ensures
            r == self.is_height(),
    {
        match self {
            TokenKind::Number => true,
            TokenKind::Blank => true,
            _ => false,
        }
    }

    /// Whether the validator takes the token for a prefab.
    pub fn prefab(self) -> (r: bool)
        ensures
            r == self.is_prefab(),
    {
        match self {
            TokenKind::Unknown => false,
            _ => true,
        }
    }
}

/// `semver::Version::parse`, and for a version that parsed its display form,
/// named by [`semver_canonical`].
#[verifier::external_body]
pub(crate) fn canonical_version(text: &str) -> (r: Option<String>)
    ensures
        match r {
            Some(version) => semver_canonical(text@) == Some(version@),
            None => semver_canonical(text@) is None,
        },
{
    semver::Version::parse(text).ok().map(|version| version.to_string())
}

/// `str::lines`, each line as a string of its own, named by [`text_lines`].
#[verifier::external_body]
pub(crate) fn lines_of(text: &str) -> (r: Vec<String>)
    ensures
        r@.map_values(|line: String| line@) == text_lines(text@),
{
    text.lines().map(|line| line.to_owned()).collect()
}

/// The lexer that `cygrind_utils` derives for its tokens, run over one line:
/// the tokens it yields, each told apart by its variant, named by
/// [`pattern_tokens`].
#[verifier::external_body]
pub(crate) fn tokens_of(line: &str) -> (r: Vec<TokenKind>)
    ensures
        r@ == pattern_tokens(line@),
{
    let mut kinds = Vec::new();
    for token in <Tokens as logos::Logos>::lexer(line) {
        kinds.push(match token {
            Tokens::Number(_) => TokenKind::Number,
            Tokens::Prefab(Prefabs::None) => TokenKind::Blank,
            Tokens::Prefab(_) => TokenKind::Prefab,
            Tokens::Error => TokenKind::Unknown,
        });
    }
    kinds
}

/// `cygrind_utils::validate`: acceptance or the error's display form, named
/// by [`pattern_verdict`]. With thirty-two lines or more that hold a token,
/// the crate walks the first sixteen tokens of the first sixteen of them,
/// each with the token below it in the next sixteen, returns at the first
/// that it rejects, and panics where it reaches a token that is not there:
/// the texts on which it panics are left out.
#[verifier::external_body]
pub(crate) fn validate(text: &str) -> (r: Result<(), String>)
    requires
        validator_returns(text@),
    ensures
        match r {
            Ok(_) => pattern_verdict(text@) is Ok,
            Err(diagnostic) => pattern_verdict(text@) == Err::<(), Seq<char>>(diagnostic@),
        },
{
    cygrind_utils::validate(text).map_err(|fault| fault.to_string())
}

/// The tokens of each line of a text.
pub open spec fn line_tokens(text: Seq<char>) -> Seq<Seq<TokenKind>> {
    text_lines(text).map_values(|line: Seq<char>| pattern_tokens(line))
}

/// The rows of a grid: the lines that hold a token, in their order.
pub open spec fn filled(lines: Seq<Seq<TokenKind>>) -> Seq<Seq<TokenKind>>
    decreases lines.len(),
{
    if lines.len() == 0 {
        Seq::empty()
    } else if lines.last().len() > 0 {
        filled(lines.drop_last()).push(lines.last())
    } else {
        filled(lines.drop_last())
    }
}

/// How the validator's walk along a row of heights and the row of prefabs
/// below it ends, from the `j`-th cell on: with `Some(true)` at a token that
/// it rejects, with `Some(false)` at a token that is not there, and with
/// none where all sixteen cells pass. The height comes before the prefab.
pub open spec fn row_walk(top: Seq<TokenKind>, bottom: Seq<TokenKind>, j: nat) -> Option<bool>
    decreases 16 - j,
{
    if j >= 16 {
        None
    } else if top.len() <= j {
        Some(false)
    } else if !top[j as int].is_height() {
        Some(true)
    } else if bottom.len() <= j {
        Some(false)
    } else if !bottom[j as int].is_prefab() {
        Some(true)
    } else {
        row_walk(top, bottom, j + 1)
    }
}

/// Whether the validator's walk over a grid of thirty-two rows or more
/// returns, from the `i`-th of the sixteen rows of heights on: it does where
/// it rejects a token before it reaches one that is not there, and where it
/// comes through all rows.
pub open spec fn grid_walk(rows: Seq<Seq<TokenKind>>, i: nat) -> bool
    decreases 16 - i,
{
    if i >= 16 {
        true
    } else {
        match row_walk(rows[i as int], rows[16 + i as int], 0) {
            Some(ended) => ended,
            None => grid_walk(rows, i + 1),
        }
    }
}

/// Whether the validator returns on a text: it does where the grid has
/// fewer than thirty-two rows, which it refuses as too short, and else where
/// its walk returns.
pub open spec fn validator_returns(text: Seq<char>) -> bool {
    let rows = filled(line_tokens(text));
    rows.len() < 32 || grid_walk(rows, 0)
}

/// The diagnostic for a grid with a cell that is not there.
pub open spec fn short_row_message() -> Seq<char> {
    "A row of the pattern holds fewer than 16 cells."@
}

/// What checking a pattern gives: the validator's verdict on every text on
/// which the validator returns; the diagnostic for a short row on the texts
/// on which it panics.
pub open spec fn checked(text: Seq<char>) -> Result<(), Seq<char>> {
    if validator_returns(text) {
        pattern_verdict(text)
    } else {
        Err(short_row_message())
    }
}

/// The rows of a grid as sequences.
pub open spec fn grid(rows: Seq<Vec<TokenKind>>) -> Seq<Seq<TokenKind>> {
    rows.map_values(|row: Vec<TokenKind>| row@)
}

fn walk_row(top: &Vec<TokenKind>, bottom: &Vec<TokenKind>) -> (r: Option<bool>)
    ensures
        r == row_walk(top@, bottom@, 0),
{
    let mut j: usize = 0;
    while j < 16
        invariant
            j <= 16,
            row_walk(top@, bottom@, 0) == row_walk(top@, bottom@, j as nat),
        decreases 16 - j,
    {
        if top.len() <= j {
            return Some(false);
        }
        if !top[j].height() {
            return Some(true);
        }
        if bottom.len() <= j {
            return Some(false);
        }
        if !bottom[j].prefab() {
            return Some(true);
        }
        j = j + 1;
    }
    None
}

fn walk_grid(rows: &Vec<Vec<TokenKind>>) -> (r: bool)
    requires
        rows@.len() >= 32,
    ensures
        r == grid_walk(grid(rows@), 0),
{
    let mut i: usize = 0;
    while i < 16
        invariant
            i <= 16,
            rows@.len() >= 32,
            grid_walk(grid(rows@), 0) == grid_walk(grid(rows@), i as nat),
        decreases 16 - i,
    {
        assert(grid(rows@)[i as int] == rows@[i as int]@);
        assert(grid(rows@)[16 + i] == rows@[16 + i]@);
        match walk_row(&rows[i], &rows[16 + i]) {
            Some(ended) => {
                return ended;
            },
            None => {},
        }
        i = i + 1;
    }
    true
}

/// Whether the validator returns on `contents`, and does not panic.
pub fn returns_on(contents: &str) -> (r: bool)
    ensures
        r == validator_returns(contents@),
{
    let lines = lines_of(contents);
    let ghost tokens = line_tokens(contents@);
    let mut rows: Vec<Vec<TokenKind>> = Vec::new();
    let mut i: usize = 0;
    assert(tokens.take(0) =~= Seq::empty());
    assert(grid(rows@) =~= Seq::empty());
    while i < lines.len()
        invariant
            i <= lines@.len(),
            tokens == line_tokens(contents@),
            lines@.map_values(|line: String| line@) == text_lines(contents@),
            tokens.len() == lines@.len(),
            grid(rows@) == filled(tokens.take(i as int)),
        decreases lines@.len() - i,
    {
        let row = tokens_of(lines[i].as_str());
        proof {
            assert(lines@.map_values(|line: String| line@)[i as int] == lines@[i as int]@);
            assert(tokens[i as int] == row@);
            assert(tokens.take(i + 1).drop_last() =~= tokens.take(i as int));
            assert(tokens.take(i + 1).last() == row@);
        }
        if row.len() > 0 {
            let ghost before = grid(rows@);
            rows.push(row);
            assert(grid(rows@) =~= before.push(row@));
        }
        i = i + 1;
    }
    assert(tokens.take(i as int) =~= tokens);
    if rows.len() < 32 {
        true
    } else {
        walk_grid(&rows)
    }
}

/// Checks the content of a pattern with the validator of `cygrind_utils`.
/// A text on which the validator would reach a cell that is not there is
/// rejected here, with a diagnostic of its own; every other text gets the
/// validator's verdict.
pub fn check_pattern(contents: &str) -> (r: Result<(), String>)
    ensures
        match r {
            Ok(_) => checked(contents@) is Ok,
            Err(diagnostic) => checked(contents@) == Err::<(), Seq<char>>(diagnostic@),
        },
{
    if returns_on(contents) {
        validate(contents)
    } else {
        Err("A row of the pattern holds fewer than 16 cells.".to_owned())
    }
}

/// The name without the extension `.cgp` at its end, if it has one.
pub open spec fn base_name(name: Seq<char>) -> Seq<char> {
    if name.len() >= 4 && name.subrange(name.len() - 4, name.len() as int) == ".cgp"@ {
        name.subrange(0, name.len() - 4)
    } else {
        name
    }
}

/// Strips the extension `.cgp` from the end of a requested name.
pub fn strip_extension(name: &str) -> (r: String)
    ensures
        r@ == base_name(name@),
{
    let n = name.unicode_len();
    proof {
        reveal_strlit(".cgp");
    }
    if n >= 4 && name.get_char(n - 4) == '.' && name.get_char(n - 3) == 'c' && name.get_char(n - 2)
        == 'g' && name.get_char(n - 1) == 'p' {
        assert(name@.subrange(name@.len() - 4, name@.len() as int) =~= ".cgp"@);
        name.substring_char(0, n - 4).to_owned()
    } else {
        assert(name@.len() >= 4 ==> name@.subrange(name@.len() - 4, name@.len() as int) != ".cgp"@)
            by {
            if name@.len() >= 4 {
                let tail = name@.subrange(name@.len() - 4, name@.len() as int);
                assert(tail[0] == name@[name@.len() - 4]);
                assert(tail[1] == name@[name@.len() - 3]);
                assert(tail[2] == name@[name@.len() - 2]);
                assert(tail[3] == name@[name@.len() - 1]);
            }
        }
        name.to_owned()
    }
}

/// The record name of a pattern before collisions are resolved: base name,
/// `@` and version.
pub open spec fn candidate_name(base: Seq<char>, version: Seq<char>) -> Seq<char> {
    base + "@"@ + version
}

/// The candidate with the suffix of the `n`-th retry: `_(n)`.
pub open spec fn suffixed(candidate: Seq<char>, n: nat) -> Seq<char> {
    candidate + "_("@ + decimal(n) + ")"@
}

/// Whether `name` resolves `candidate` against the names in `existing`: it
/// is the candidate where that is free, and else the candidate with the
/// suffix of the first retry that is free.
pub open spec fn resolves(existing: Seq<Seq<char>>, candidate: Seq<char>, name: Seq<char>) -> bool {
    if !existing.contains(candidate) {
        name == candidate
    } else {
        exists|n: nat|
            name == #[trigger] suffixed(candidate, n) && !existing.contains(name) && forall|m: nat|
                m < n ==> existing.contains(#[trigger] suffixed(candidate, m))
    }
}

/// The name that resolves `candidate` against the names in `existing`.
pub open spec fn resolved(existing: Seq<Seq<char>>, candidate: Seq<char>) -> Seq<char> {
    choose|name: Seq<char>| resolves(existing, candidate, name)
}

/// At most one name resolves a candidate.
pub proof fn lemma_resolves_unique(
    existing: Seq<Seq<char>>,
    candidate: Seq<char>,
    a: Seq<char>,
    b: Seq<char>,
)
    requires
        resolves(existing, candidate, a),
        resolves(existing, candidate, b),
    ensures
        a == b,
{
    if existing.contains(candidate) {
        let na = choose|n: nat|
            a == #[trigger] suffixed(candidate, n) && !existing.contains(a) && forall|m: nat|
                m < n ==> existing.contains(#[trigger] suffixed(candidate, m));
        let nb = choose|n: nat|
            b == #[trigger] suffixed(candidate, n) && !existing.contains(b) && forall|m: nat|
                m < n ==> existing.contains(#[trigger] suffixed(candidate, m));
        if na < nb {
            assert(existing.contains(suffixed(candidate, na)));
        } else if nb < na {
            assert(existing.contains(suffixed(candidate, nb)));
        }
    }
}

/// Different retries give different names.
pub proof fn lemma_suffixed_injective(candidate: Seq<char>, a: nat, b: nat)
    requires
        suffixed(candidate, a) == suffixed(candidate, b),
    ensures
        a == b,
{
    reveal_strlit("_(");
    reveal_strlit(")");
    let head = candidate + "_("@;
    let sa = suffixed(candidate, a);
    let sb = suffixed(candidate, b);
    assert(sa.len() == head.len() + decimal(a).len() + 1);
    assert(sb.len() == head.len() + decimal(b).len() + 1);
    assert(sa.subrange(head.len() as int, sa.len() - 1) =~= decimal(a));
    assert(sb.subrange(head.len() as int, sb.len() - 1) =~= decimal(b));
    lemma_decimal_injective(a, b);
}

/// The retries below `n`, as a set of names.
pub open spec fn retries(candidate: Seq<char>, n: nat) -> Set<Seq<char>> {
    Set::new(|name: Seq<char>| exists|m: nat| m < n && name == #[trigger] suffixed(candidate, m))
}

proof fn lemma_retries_counted(candidate: Seq<char>, n: nat)
    ensures
        retries(candidate, n).finite(),
        retries(candidate, n).len() == n,
    decreases n,
{
    if n == 0 {
        assert(retries(candidate, 0) =~= Set::<Seq<char>>::empty());
    } else {
        let below = retries(candidate, (n - 1) as nat);
        let last = suffixed(candidate, (n - 1) as nat);
        lemma_retries_counted(candidate, (n - 1) as nat);
        assert(!below.contains(last)) by {
            if below.contains(last) {
                let m = choose|m: nat| m < n - 1 && last == #[trigger] suffixed(candidate, m);
                lemma_suffixed_injective(candidate, m, (n - 1) as nat);
            }
        }
        assert(retries(candidate, n) =~= below.insert(last)) by {
            assert forall|name: Seq<char>|
                retries(candidate, n).contains(name) implies below.insert(last).contains(name) by {
                let m = choose|m: nat| m < n && name == #[trigger] suffixed(candidate, m);
                if m < n - 1 {
                    assert(below.contains(name));
                }
            }
            assert forall|name: Seq<char>| below.insert(last).contains(name) implies retries(
                candidate,
                n,
            ).contains(name) by {
                if name == last {
                    assert(name == suffixed(candidate, (n - 1) as nat));
                } else {
                    let m = choose|m: nat| m < n - 1 && name == #[trigger] suffixed(candidate, m);
                    assert(m < n);
                }
            }
        }
    }
}

/// Where every retry below `n` is taken, there are at least `n` names.
pub proof fn lemma_retries_bounded(existing: Seq<Seq<char>>, candidate: Seq<char>, n: nat)
    requires
        forall|m: nat| m < n ==> existing.contains(#[trigger] suffixed(candidate, m)),
    ensures
        n <= existing.len(),
{
    lemma_retries_counted(candidate, n);
    existing.lemma_cardinality_of_set();
    assert(retries(candidate, n).subset_of(existing.to_set())) by {
        assert forall|name: Seq<char>|
            retries(candidate, n).contains(name) implies existing.to_set().contains(name) by {
            let m = choose|m: nat| m < n && name == #[trigger] suffixed(candidate, m);
            assert(existing.contains(suffixed(candidate, m)));
        }
    }
    vstd::set_lib::lemma_len_subset(retries(candidate, n), existing.to_set());
}

/// Some name always resolves a candidate: the name that [`resolved`] gives
/// does, and so it is not among the names.
pub proof fn lemma_resolved_exists(existing: Seq<Seq<char>>, candidate: Seq<char>)
    ensures
        resolves(existing, candidate, resolved(existing, candidate)),
        !existing.contains(resolved(existing, candidate)),
{
    if !existing.contains(candidate) {
        assert(resolves(existing, candidate, candidate));
    } else {
        if forall|m: nat| m <= existing.len() ==> existing.contains(
            #[trigger] suffixed(candidate, m),
        ) {
            lemma_retries_bounded(existing, candidate, existing.len() + 1);
        }
        let bound = choose|m: nat|
            m <= existing.len() && !existing.contains(#[trigger] suffixed(candidate, m));
        lemma_first_free_retry(existing, candidate, bound);
    }
}

/// Where a retry is free, there is a first retry that is free, and its name
/// resolves the candidate.
proof fn lemma_first_free_retry(existing: Seq<Seq<char>>, candidate: Seq<char>, n: nat)
    requires
        existing.contains(candidate),
        !existing.contains(suffixed(candidate, n)),
    ensures
        exists|name: Seq<char>| resolves(existing, candidate, name),
    decreases n,
{
    if forall|m: nat| m < n ==> existing.contains(#[trigger] suffixed(candidate, m)) {
        assert(resolves(existing, candidate, suffixed(candidate, n)));
    } else {
        let m = choose|m: nat| m < n && !existing.contains(#[trigger] suffixed(candidate, m));
        lemma_first_free_retry(existing, candidate, m);
    }
}

/// Whether `name` is among `existing`.
pub fn is_taken(existing: &Vec<String>, name: &str) -> (r: bool)
    ensures
        r == texts(existing@).contains(name@),
{
    let ghost names = texts(existing@);
    let mut i: usize = 0;
    while i < existing.len()
        invariant
            i <= existing@.len(),
            names == texts(existing@),
            forall|k: int| 0 <= k < i ==> names[k] != name@,
        decreases existing@.len() - i,
    {
        if same_text(existing[i].as_str(), name) {
            assert(names[i as int] == name@);
            return true;
        }
        i = i + 1;
    }
    false
}

fn with_suffix(candidate: &str, n: usize) -> (r: String)
    ensures
        r@ == suffixed(candidate@, n as nat),
{
    let mut s = String::from_str(candidate);
    s.append("_(");
    s.append(decimal_string(n).as_str());
    s.append(")");
    s
}

/// Resolves a candidate name against the names that are taken: the candidate
/// itself where it is free, else the candidate with `_(0)`, `_(1)` and so on
/// until a name is free.
pub fn resolve_unique_name(existing: &Vec<String>, candidate: &str) -> (r: String)
    ensures
        resolves(texts(existing@), candidate@, r@),
        r@ == resolved(texts(existing@), candidate@),
        !texts(existing@).contains(r@),
{
    let ghost names = texts(existing@);
    if !is_taken(existing, candidate) {
        proof {
            lemma_resolves_unique(names, candidate@, candidate@, resolved(names, candidate@));
        }
        return candidate.to_owned();
    }
    let count = existing.len();
    let mut n: usize = 0;
    let mut name = with_suffix(candidate, n);
    while is_taken(existing, name.as_str())
        invariant
            names == texts(existing@),
            names.len() == count,
            names.contains(candidate@),
            name@ == suffixed(candidate@, n as nat),
            forall|m: nat| m < n ==> names.contains(#[trigger] suffixed(candidate@, m)),
            n <= names.len(),
        decreases names.len() - n,
    {
        proof {
            assert forall|m: nat| m < n + 1 implies names.contains(
                #[trigger] suffixed(candidate@, m),
            ) by {
                if m == n {
                } else {
                    assert(m < n);
                }
            }
            lemma_retries_bounded(names, candidate@, (n + 1) as nat);
        }
        n = n + 1;
        name = with_suffix(candidate, n);
    }
    proof {
        assert(resolves(names, candidate@, name@));
        lemma_resolves_unique(names, candidate@, name@, resolved(names, candidate@));
    }
    name
}

} // verus!
