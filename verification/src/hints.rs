//! Quick-jump codes: a fixed two-way table between visible rows and short
//! codes typed on the home row.

use vstd::prelude::*;
use bimap::BiHashMap;
use crate::Error;
use crate::text::push_char;

verus! {

/// `bimap::BiHashMap`, a two-way hash map. Nothing is known of a value of it
/// but what the functions below say.
#[verifier::external_type_specification]
#[verifier::external_body]
#[verifier::reject_recursive_types(L)]
#[verifier::reject_recursive_types(R)]
#[verifier::reject_recursive_types(LS)]
#[verifier::reject_recursive_types(RS)]
pub struct ExBiHashMap<L, R, LS, RS>(BiHashMap<L, R, LS, RS>);

/// The pairs that a bimap of rows and codes holds, as the code of each row
/// that is paired. A bimap pairs a row with one code and a code with one row.
pub uninterp spec fn hint_pairs(table: BiHashMap<usize, String>) -> Map<usize, Seq<char>>;

/// The table that holds no pair.
pub open spec fn no_pairs() -> Map<usize, Seq<char>> {
    Map::empty()
}

/// What a table holds once `row` and `code` have been paired in it: every
/// earlier pair that shares the row or the code is gone.
pub open spec fn paired(pairs: Map<usize, Seq<char>>, row: usize, code: Seq<char>) -> Map<
    usize,
    Seq<char>,
> {
    Map::new(
        |k: usize| k == row || (pairs.contains_key(k) && pairs[k] != code),
        |k: usize|
            if k == row {
                code
            } else {
                pairs[k]
            },
    )
}

/// `BiHashMap::new`: a fresh bimap holds no pair.
#[verifier::external_body]
fn pairs_new() -> (r: BiHashMap<usize, String>)
    ensures
        hint_pairs(r) == no_pairs(),
{
    BiHashMap::new()
}

/// `BiHashMap::insert`: drops the pair of `row` and the pair of `code`, if
/// there are any, then pairs the two.
#[verifier::external_body]
fn pairs_insert(table: &mut BiHashMap<usize, String>, row: usize, code: String)
    ensures
        hint_pairs(*final(table)) == paired(hint_pairs(*old(table)), row, code@),
{
    table.insert(row, code);
}

/// `BiHashMap::get_by_left`: the code paired with `row`, if there is one.
#[verifier::external_body]
fn pairs_get_by_left(table: &BiHashMap<usize, String>, row: usize) -> (r: Option<String>)
    ensures
        r.is_some() == hint_pairs(*table).contains_key(row),
        r.is_some() ==> r.unwrap()@ == hint_pairs(*table)[row],
{
    table.get_by_left(&row).cloned()
}

/// `BiHashMap::get_by_right`: the row paired with `code`, if there is one.
#[verifier::external_body]
fn pairs_get_by_right(table: &BiHashMap<usize, String>, code: &String) -> (r: Option<usize>)
    ensures
        r.is_some() ==> hint_pairs(*table).contains_key(r.unwrap()) && hint_pairs(
            *table,
        )[r.unwrap()] == code@,
        r.is_none() ==> forall|k: usize| #[trigger]
            hint_pairs(*table).contains_key(k) ==> hint_pairs(*table)[k] != code@,
{
    table.get_by_right(code).copied()
}

/// Number of rows that have a code.
pub const HINT_ROWS: usize = 136;

pub const ONE_LETTER: [char; 8] = ['p', 'l', 'f', 'u', 'w', 'y', 'q', ';'];

pub const FIRST_LETTER: [char; 8] = ['t', 'n', 's', 'e', 'r', 'i', 'a', 'o'];

pub const SECOND_LETTER: [char; 16] = [
    't',
    'n',
    's',
    'e',
    'r',
    'i',
    'a',
    'o',
    'p',
    'l',
    'f',
    'u',
    'w',
    'y',
    'q',
    ';',
];

/// The code of a row: the first eight rows have one character, the next 128
/// have two, the first of which is never a one-character code.
pub open spec fn hint_code(row: int) -> Seq<char> {
    if row < 8 {
        seq![ONE_LETTER@[row]]
    } else {
        seq![FIRST_LETTER@[(row - 8) / 16], SECOND_LETTER@[(row - 8) % 16]]
    }
}

/// The whole table: every row below `rows` with its code.
pub open spec fn code_table(rows: int) -> Map<usize, Seq<char>> {
    Map::new(|k: usize| k < rows, |k: usize| hint_code(k as int))
}

/// Two rows never share a code.
pub proof fn lemma_codes_distinct(i: int, j: int)
    requires
        0 <= i < HINT_ROWS,
        0 <= j < HINT_ROWS,
        i != j,
    ensures
        hint_code(i) != hint_code(j),
{
    let a = hint_code(i);
    let b = hint_code(j);
    if i < 8 && j < 8 {
        assert(a[0] != b[0]);
    } else if i < 8 || j < 8 {
        assert(a.len() != b.len());
    } else {
        let qi = (i - 8) / 16;
        let qj = (j - 8) / 16;
        let ri = (i - 8) % 16;
        let rj = (j - 8) % 16;
        if qi != qj {
            assert(a[0] != b[0]);
        } else {
            assert(ri != rj);
            assert(a[1] != b[1]);
        }
    }
}

/// The two-way table between rows and codes.
pub struct HintTable {
    codes: BiHashMap<usize, String>,
}

impl View for HintTable {
    type V = Map<usize, Seq<char>>;

    /// The code of each row that has one.
    closed spec fn view(&self) -> Map<usize, Seq<char>> {
        hint_pairs(self.codes)
    }
}

impl HintTable {
    #[verifier::type_invariant]
    spec fn holds_all_codes(&self) -> bool {
        hint_pairs(self.codes) == code_table(HINT_ROWS as int)
    }

    /// Builds the table of all 136 codes.
    pub fn new() -> (table: Self)
        ensures
            table@ == code_table(HINT_ROWS as int),
    {
        let mut codes = pairs_new();
        let mut row: usize = 0;
        assert(hint_pairs(codes) =~= code_table(0));
        while row < HINT_ROWS
            invariant
                row <= HINT_ROWS,
                hint_pairs(codes) == code_table(row as int),
            decreases HINT_ROWS - row,
        {
            let mut code = String::new();
            if row < 8 {
                push_char(&mut code, ONE_LETTER[row]);
            } else {
                push_char(&mut code, FIRST_LETTER[(row - 8) / 16]);
                push_char(&mut code, SECOND_LETTER[(row - 8) % 16]);
            }
            assert(code@ =~= hint_code(row as int));
            let ghost before = hint_pairs(codes);
            pairs_insert(&mut codes, row, code);
            proof {
                assert forall|k: usize| k < row implies before[k] != hint_code(row as int) by {
                    lemma_codes_distinct(k as int, row as int);
                }
                assert(hint_pairs(codes) =~= code_table(row + 1));
            }
            row += 1;
        }
        HintTable { codes }
    }

    /// The code of a visible row, counted from the top of the window; `None`
    /// for a row beyond the last code.
    pub fn lookup_code(&self, row: usize) -> (code: Option<String>)
        ensures
            row < HINT_ROWS ==> code.is_some() && code.unwrap()@ == hint_code(row as int),
            row >= HINT_ROWS ==> code.is_none(),
    {
        proof {
            use_type_invariant(self);
        }
        pairs_get_by_left(&self.codes, row)
    }

    /// The row that a code names: the one row whose code it is, or
    /// `UnknownHint` where it is the code of none.
    pub fn resolve(&self, code: &String) -> (row: Result<usize, Error>)
        ensures
            match row {
                Ok(r) => r < HINT_ROWS && hint_code(r as int) == code@,
                Err(e) => e == Error::UnknownHint && forall|k: int|
                    0 <= k < HINT_ROWS ==> hint_code(k) != code@,
            },
            forall|k: int|
                0 <= k < HINT_ROWS && #[trigger] hint_code(k) == code@ ==> row == Ok::<
                    usize,
                    Error,
                >(k as usize),
    {
        proof {
            use_type_invariant(self);
        }
        match pairs_get_by_right(&self.codes, code) {
            Some(r) => {
                assert forall|k: int| 0 <= k < HINT_ROWS && hint_code(k) == code@ implies k
                    == r by {
                    if k != r {
                        lemma_codes_distinct(k, r as int);
                    }
                }
                Ok(r)
            },
            None => {
                assert forall|k: int| 0 <= k < HINT_ROWS implies hint_code(k) != code@ by {
                    let row = k as usize;
                    assert(hint_pairs(self.codes).contains_key(row));
                    assert(hint_pairs(self.codes)[row] == hint_code(k));
                }
                Err(Error::UnknownHint)
            },
        }
    }

    /// Whether `partial` is exactly the code of one of the first
    /// `visible_rows` rows.
    pub fn is_valid_code(&self, partial: &String, visible_rows: usize) -> (valid: bool)
        ensures
            valid == exists|k: int|
                0 <= k < visible_rows && k < HINT_ROWS && hint_code(k) == partial@,
    {
        match self.resolve(partial) {
            Ok(r) => {
                proof {
                    if r >= visible_rows {
                        assert forall|k: int|
                            0 <= k < visible_rows && k < HINT_ROWS implies hint_code(k)
                            != partial@ by {
                            lemma_codes_distinct(k, r as int);
                        }
                    }
                }
                r < visible_rows
            },
            Err(_) => false,
        }
    }
}

/// Looking a row's code up and resolving it leads back to the row, and no
/// two rows share a code.
pub proof fn lemma_resolve_inverts_lookup(i: int, j: int)
    requires
        0 <= i < HINT_ROWS,
        0 <= j < HINT_ROWS,
    ensures
        hint_code(i) == hint_code(j) <==> i == j,
{
    if i != j {
        lemma_codes_distinct(i, j);
    }
}

} // verus!
