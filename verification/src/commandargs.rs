//! Decoding of extraction-command arguments: a positional 3-tuple of
//! document uri, row and column, used to reconstruct the point the command
//! acts on.

use vstd::prelude::*;

use crate::lsp::Point;

verus! {

/// One plain command argument: the transport's strings and numbers, with
/// everything else collapsed.
#[derive(Debug, Clone, PartialEq)]
pub enum CommandArg {
    Str(String),
    Num(u64),
    Other,
}

/// The uri argument: a string in position zero, else empty.
pub open spec fn spec_cmd_uri(args: Seq<CommandArg>) -> Seq<char> {
    if args.len() > 0 {
        match args[0] {
            CommandArg::Str(s) => s@,
            _ => Seq::<char>::empty(),
        }
    } else {
        Seq::<char>::empty()
    }
}

/// The coordinate argument at position `i`: a number there, clamped to
/// zero when it does not fit the machine, else zero.
pub open spec fn spec_cmd_coord(args: Seq<CommandArg>, i: int) -> int {
    if args.len() > i {
        match args[i] {
            CommandArg::Num(n) => if n <= usize::MAX {
                n as int
            } else {
                0
            },
            _ => 0,
        }
    } else {
        0
    }
}

fn coord_of(n: u64) -> (r: usize)
    ensures
        n <= usize::MAX ==> r == n,
        n > usize::MAX ==> r == 0,
{
    if n <= usize::MAX as u64 {
        n as usize
    } else {
        0
    }
}

/// Rebuild the point and document uri from the positional arguments:
/// the uri from position zero, the row from position one, the column from
/// position two; anything missing or of the wrong shape becomes zero or
/// empty.
pub fn parse(args: Vec<CommandArg>) -> (r: (Point, String))
    ensures
        r.0.row == spec_cmd_coord(args@, 1),
        r.0.column == spec_cmd_coord(args@, 2),
        r.1@ == spec_cmd_uri(args@),
{
    let mut uri: String = String::new();
    let mut row: usize = 0;
    let mut column: usize = 0;
    if args.len() > 0 {
        if let CommandArg::Str(s) = &args[0] {
            uri = s.clone();
        }
    }
    if args.len() > 1 {
        if let CommandArg::Num(n) = &args[1] {
            row = coord_of(*n);
        }
    }
    if args.len() > 2 {
        if let CommandArg::Num(n) = &args[2] {
            column = coord_of(*n);
        }
    }
    let point = Point { row, column };
    (point, uri)
}

} // verus!
