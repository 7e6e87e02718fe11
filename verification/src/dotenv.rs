//! Reading of `NAME=VALUE` lines, as environment files hold them.

use crate::text::{
    first_index, same_text, split_once, trim_end_matches, trim_start_matches, without_prefixes,
    without_suffixes,
};
use vstd::prelude::*;

verus! {

/// `input` without the double quotes at its start and at its end, however
/// many there are.
pub open spec fn unquoted(input: Seq<char>) -> Seq<char> {
    without_suffixes(without_prefixes(input, "\""@), "\""@)
}

/// Extracts `FOO` from `"FOO"`.
pub fn extract_value(input: &str) -> (value: &str)
    ensures
        value@ == unquoted(input@),
{
    trim_end_matches(trim_start_matches(input, "\""), "\"")
}

/// Why a list of lines is no environment.
#[derive(Debug, PartialEq, Eq)]
pub enum DotenvError {
    /// A line holds no `=`.
    Unparseable,
    /// A name stands on two lines.
    Duplicate(String),
    /// The lines hold no variable at all.
    Empty,
}

/// The mathematical content of a [`DotenvError`].
pub enum DotenvErrorView {
    Unparseable,
    Duplicate(Seq<char>),
    Empty,
}

impl View for DotenvError {
    type V = DotenvErrorView;

    open spec fn view(&self) -> DotenvErrorView {
        match self {
            DotenvError::Unparseable => DotenvErrorView::Unparseable,
            DotenvError::Duplicate(name) => DotenvErrorView::Duplicate(name@),
            DotenvError::Empty => DotenvErrorView::Empty,
        }
    }
}

/// The name and the value on a line: what stands before and after its first
/// `=`, each without its quotes. `None` for a line without `=`.
pub open spec fn variable_on(line: Seq<char>) -> Option<(Seq<char>, Seq<char>)> {
    let at = first_index(line, '=');
    if at < line.len() {
        Some((unquoted(line.take(at)), unquoted(line.skip(at + 1))))
    } else {
        None
    }
}

/// Reads the variable on a line.
pub fn parse_line(line: &str) -> (variable: Option<(String, String)>)
    ensures
        match variable {
            Some((name, value)) => variable_on(line@) == Some((name@, value@)),
            None => variable_on(line@) is None,
        },
{
    match split_once(line, '=') {
        Some((name_raw, value_raw)) => Some(
            (extract_value(name_raw).to_owned(), extract_value(value_raw).to_owned()),
        ),
        None => None,
    }
}

/// Whether `name` is among the names of `variables`.
pub open spec fn has_name(variables: Seq<(Seq<char>, Seq<char>)>, name: Seq<char>) -> bool {
    exists|i: int| 0 <= i < variables.len() && (#[trigger] variables[i]).0 == name
}

/// The variables read from `lines` after those in `done`: the lines are
/// taken in order, and the first line without `=` or with a name that was
/// met before ends the reading with its error.
pub open spec fn variables_after(
    done: Seq<(Seq<char>, Seq<char>)>,
    lines: Seq<Seq<char>>,
) -> Result<Seq<(Seq<char>, Seq<char>)>, DotenvErrorView>
    decreases lines.len(),
{
    if lines.len() == 0 {
        Ok(done)
    } else {
        match variable_on(lines[0]) {
            None => Err(DotenvErrorView::Unparseable),
            Some((name, value)) => if has_name(done, name) {
                Err(DotenvErrorView::Duplicate(name))
            } else {
                variables_after(done.push((name, value)), lines.drop_first())
            },
        }
    }
}

/// The environment that `lines` hold: their variables, in order. Lines that
/// hold no variable at all are an error too.
pub open spec fn environment_in(lines: Seq<Seq<char>>) -> Result<
    Seq<(Seq<char>, Seq<char>)>,
    DotenvErrorView,
> {
    match variables_after(Seq::empty(), lines) {
        Ok(variables) => if variables.len() == 0 {
            Err(DotenvErrorView::Empty)
        } else {
            Ok(variables)
        },
        Err(e) => Err(e),
    }
}

/// The names and values of a list of variables, as sequences of characters.
pub open spec fn variable_views(variables: Seq<(String, String)>) -> Seq<(Seq<char>, Seq<char>)> {
    Seq::new(variables.len(), |i: int| (variables[i].0@, variables[i].1@))
}

/// The texts of a list of lines.
pub open spec fn line_views(lines: Seq<String>) -> Seq<Seq<char>> {
    Seq::new(lines.len(), |i: int| lines[i]@)
}

fn knows(variables: &Vec<(String, String)>, name: &str) -> (found: bool)
    ensures
        found == has_name(variable_views(variables@), name@),
{
    let mut i: usize = 0;
    while i < variables.len()
        invariant
            i <= variables@.len(),
            forall|k: int| 0 <= k < i ==> (#[trigger] variable_views(variables@)[k]).0 != name@,
        decreases variables@.len() - i,
    {
        if same_text(variables[i].0.as_str(), name) {
            assert(variable_views(variables@)[i as int].0 == name@);
            return true;
        }
        i += 1;
    }
    false
}

/// Reads the lines of an environment file.
pub fn parse_lines(lines: &Vec<String>) -> (environment: Result<Vec<(String, String)>, DotenvError>)
    ensures
        match environment {
            Ok(variables) => environment_in(line_views(lines@)) == Ok::<_, DotenvErrorView>(
                variable_views(variables@),
            ),
            Err(e) => environment_in(line_views(lines@)) == Err::<
                Seq<(Seq<char>, Seq<char>)>,
                _,
            >(e@),
        },
{
    let ghost all = line_views(lines@);
    let mut variables: Vec<(String, String)> = Vec::new();
    let mut i: usize = 0;
    assert(all.skip(0) =~= all);
    assert(variable_views(variables@) =~= Seq::empty());
    while i < lines.len()
        invariant
            i <= lines@.len(),
            all == line_views(lines@),
            variables_after(Seq::empty(), all) == variables_after(
                variable_views(variables@),
                all.skip(i as int),
            ),
        decreases lines@.len() - i,
    {
        let ghost rest = all.skip(i as int);
        assert(rest[0] == lines@[i as int]@);
        assert(rest.drop_first() =~= all.skip(i + 1));
        match parse_line(lines[i].as_str()) {
            None => {
                return Err(DotenvError::Unparseable);
            },
            Some((name, value)) => {
                if knows(&variables, name.as_str()) {
                    return Err(DotenvError::Duplicate(name));
                }
                let ghost before = variable_views(variables@);
                variables.push((name, value));
                assert(variable_views(variables@) =~= before.push((name@, value@)));
            },
        }
        i += 1;
    }
    if variables.len() == 0 {
        Err(DotenvError::Empty)
    } else {
        Ok(variables)
    }
}

} // verus!
