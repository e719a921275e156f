//! The command lines the launcher hands to `ray`.

use vstd::prelude::*;
use vstd::string::*;
use crate::launcher::convert::SpinDirection;

verus! {

/// The pieces joined by single spaces.
pub open spec fn join_with_spaces(pieces: Seq<Seq<char>>) -> Seq<char>
    decreases pieces.len(),
{
    if pieces.len() == 0 {
        Seq::empty()
    } else if pieces.len() == 1 {
        pieces[0]
    } else {
        join_with_spaces(pieces.drop_last()) + seq![' '] + pieces.last()
    }
}

/// `s` holds no space.
pub open spec fn has_no_space(s: Seq<char>) -> bool {
    forall|i: int| 0 <= i < s.len() ==> s[i] != ' '
}

proof fn lemma_join_push(pieces: Seq<Seq<char>>, p: Seq<char>)
    ensures
        join_with_spaces(pieces.push(p)) == if pieces.len() == 0 {
            p
        } else {
            join_with_spaces(pieces) + seq![' '] + p
        },
{
    assert(pieces.push(p).drop_last() =~= pieces);
    if pieces.len() == 0 {
        assert(pieces.push(p)[0] == p);
    }
}

/// Splits a command at each space, as `str::split(' ')` does: consecutive
/// spaces give empty pieces, and there is always at least one piece.
pub fn split_command(command: &str) -> (pieces: Vec<String>)
    ensures
        pieces@.len() >= 1,
        join_with_spaces(pieces.deep_view()) == command@,
        forall|k: int| 0 <= k < pieces@.len() ==> has_no_space(#[trigger] pieces@[k]@),
{
    let mut pieces: Vec<String> = Vec::new();
    let mut current = String::new();
    let n = command.unicode_len();
    for i in 0..n
        invariant
            n == command@.len(),
            join_with_spaces(pieces.deep_view().push(current@)) == command@.take(i as int),
            forall|k: int| 0 <= k < pieces@.len() ==> has_no_space(#[trigger] pieces@[k]@),
            has_no_space(current@),
    {
        let c = command.get_char(i);
        let ghost before = pieces.deep_view();
        let ghost cur = current@;
        if c == ' ' {
            pieces.push(current);
            current = String::new();
            proof {
                assert(pieces.deep_view() =~= before.push(cur));
                lemma_join_push(before, cur);
                lemma_join_push(pieces.deep_view(), current@);
                assert(current@ =~= Seq::<char>::empty());
                assert(command@.take(i + 1) =~= command@.take(i as int) + seq![' ']);
            }
        } else {
            current.append(command.substring_char(i, i + 1));
            proof {
                assert(current@ =~= cur.push(c));
                lemma_join_push(before, cur);
                lemma_join_push(before, current@);
                assert(command@.take(i + 1) =~= command@.take(i as int).push(c));
                if before.len() == 0 {
                    assert(current@ =~= command@.take(i + 1));
                } else {
                    assert(join_with_spaces(before) + seq![' '] + current@ =~= (join_with_spaces(
                        before,
                    ) + seq![' '] + cur).push(c));
                }
            }
        }
    }
    let ghost before = pieces.deep_view();
    pieces.push(current);
    assert(pieces.deep_view() =~= before.push(current@));
    assert(command@.take(n as int) =~= command@);
    pieces
}

/// The arguments of `ray up` or `ray down` for a cluster configuration file:
/// the direction, the file, and `-y` to skip confirmation.
pub fn spin_arguments(direction: SpinDirection, ray_path: &str) -> (args: Vec<String>)
    ensures
        args.deep_view() == seq![
            if direction is Up { "up"@ } else { "down"@ },
            ray_path@,
            "-y"@,
        ],
{
    let mut args: Vec<String> = Vec::new();
    args.push(String::from_str(direction.as_str()));
    args.push(ray_path.to_owned());
    args.push(String::from_str("-y"));
    assert(args.deep_view() =~= seq![
        if direction is Up { "up"@ } else { "down"@ },
        ray_path@,
        "-y"@,
    ]);
    args
}

/// The fixed head of the arguments of `ray job submit`.
pub open spec fn submit_prefix(working_dir: Seq<char>) -> Seq<Seq<char>> {
    seq![
        "job"@,
        "submit"@,
        "--address"@,
        "http://localhost:8265"@,
        "--working-dir"@,
        working_dir,
        "--"@,
    ]
}

/// The arguments of `ray job submit` that run `command_segments` with the
/// given working directory on the cluster reached through the local port
/// forward.
pub fn submit_arguments(working_dir: &str, command_segments: &Vec<String>) -> (args: Vec<String>)
    ensures
        args.deep_view() == submit_prefix(working_dir@) + command_segments.deep_view(),
{
    let mut args: Vec<String> = Vec::new();
    args.push(String::from_str("job"));
    args.push(String::from_str("submit"));
    args.push(String::from_str("--address"));
    args.push(String::from_str("http://localhost:8265"));
    args.push(String::from_str("--working-dir"));
    args.push(working_dir.to_owned());
    args.push(String::from_str("--"));
    let ghost head = args.deep_view();
    assert(head =~= submit_prefix(working_dir@));
    let n = command_segments.len();
    for i in 0..n
        invariant
            n == command_segments@.len(),
            head == submit_prefix(working_dir@),
            args.deep_view() =~= head + command_segments.deep_view().take(i as int),
    {
        let ghost before = args.deep_view();
        args.push(command_segments[i].clone());
        assert(args.deep_view() =~= before.push(command_segments[i as int]@));
        assert(command_segments.deep_view().take(i + 1) =~= command_segments.deep_view().take(
            i as int,
        ).push(command_segments[i as int]@));
    }
    assert(command_segments.deep_view().take(n as int) =~= command_segments.deep_view());
    args
}

/// The command that runs a SQL query on the cluster with the bundled script.
pub fn sql_command(sql: &str) -> (segments: Vec<String>)
    ensures
        segments.deep_view() == seq!["python"@, "sql.py"@, sql@],
{
    let mut segments: Vec<String> = Vec::new();
    segments.push(String::from_str("python"));
    segments.push(String::from_str("sql.py"));
    segments.push(sql.to_owned());
    assert(segments.deep_view() =~= seq!["python"@, "sql.py"@, sql@]);
    segments
}

} // verus!
