//! What is logged, and how the log file is rotated.
use vstd::prelude::*;
use vstd::string::*;

use crate::text::{
    begins, concat, concat3, decimal, join, joined, law_numbers_are_read_back, opt_str, owned,
    pieces, same, split_at_char, starts_with, texts, trim, trimmed, usize_text,
};

verus! {

broadcast use {vstd::seq::group_seq_axioms, vstd::string::group_string_axioms};

/// Where the log file stands below the root of all logs.
pub const DEFAULT_LOG_RELATIVE_PATH: &'static str = "log/symphony.log";

/// How large the log file may become, in bytes.
pub const DEFAULT_MAX_BYTES: u64 = 10_485_760;

/// How many older log files are kept.
pub const DEFAULT_MAX_FILES: usize = 5;

/// What is logged where nothing is asked for.
pub const DEFAULT_LOG_FILTER: &'static str = "info";

// ---------------------------------------------------------------------------
// Paths
// ---------------------------------------------------------------------------

/// A relative path below a directory.
pub open spec fn joined_path(base: Seq<char>, relative: Seq<char>) -> Seq<char> {
    if base.len() == 0 || base.last() == '/' {
        base + relative
    } else {
        base + "/"@ + relative
    }
}

/// A relative path below a directory.
pub fn join_path(base: &str, relative: &str) -> (r: String)
    ensures
        r@ == joined_path(base@, relative@),
{
    let chars: Vec<char> = crate::text::chars_of(base);
    if chars.len() == 0 || chars[chars.len() - 1] == '/' {
        concat(base, relative)
    } else {
        concat3(base, "/", relative)
    }
}

/// Where the log file stands.
pub fn default_log_file(logs_root: &str) -> (r: String)
    ensures
        r@ == joined_path(logs_root@, DEFAULT_LOG_RELATIVE_PATH@),
{
    join_path(logs_root, DEFAULT_LOG_RELATIVE_PATH)
}

// ---------------------------------------------------------------------------
// The filter
// ---------------------------------------------------------------------------

/// Whether a directive is about a target.
pub open spec fn is_about(directive: Seq<char>, target: Seq<char>) -> bool {
    directive == target || begins(directive, target + "="@) || begins(directive, target + "["@)
}

/// Whether one of the directives, between commas, is about a target.
pub open spec fn names_target(spec: Seq<char>, target: Seq<char>) -> bool {
    exists|i: int|
        0 <= i < pieces(spec, ',').len() && is_about(
            trimmed(#[trigger] pieces(spec, ',')[i]),
            target,
        )
}

/// Whether one of the directives is about a target.
pub fn has_target_directive(spec: &str, target_name: &str) -> (r: bool)
    ensures
        r == names_target(spec@, target_name@),
{
    let parts: Vec<String> = split_at_char(spec, ',');
    let level: String = concat(target_name, "=");
    let span: String = concat(target_name, "[");
    let mut i: usize = 0;
    while i < parts.len()
        invariant
            i <= parts.len(),
            texts(parts@) == pieces(spec@, ','),
            level@ == target_name@ + "="@,
            span@ == target_name@ + "["@,
            forall|j: int|
                0 <= j < i ==> !is_about(
                    trimmed(#[trigger] pieces(spec@, ',')[j]),
                    target_name@,
                ),
        decreases parts.len() - i,
    {
        let directive: String = trim(parts[i].as_str());
        proof {
            assert(texts(parts@)[i as int] == parts@[i as int]@);
            assert(directive@ == trimmed(pieces(spec@, ',')[i as int]));
        }
        if same(directive.as_str(), target_name) || starts_with(directive.as_str(), level.as_str())
            || starts_with(directive.as_str(), span.as_str()) {
            return true;
        }
        i = i + 1;
    }
    false
}

/// What the filter starts from: what is asked for, or the default.
pub open spec fn filter_base(env_spec: Option<Seq<char>>) -> Seq<char> {
    match env_spec {
        Some(spec) => if trimmed(spec) == ""@ {
            DEFAULT_LOG_FILTER@
        } else {
            trimmed(spec)
        },
        None => DEFAULT_LOG_FILTER@,
    }
}

/// A directive for a target, unless there is one already.
pub open spec fn directive_for(base: Seq<char>, target: Seq<char>, directive: Seq<char>) -> Seq<
    Seq<char>,
> {
    if names_target(base, target) {
        Seq::empty()
    } else {
        seq![directive]
    }
}

/// The filter: what is asked for, and the program's own messages unless something is asked
/// for them.
pub open spec fn filter_spec(env_spec: Option<Seq<char>>) -> Seq<char> {
    let base = filter_base(env_spec);
    joined(
        seq![base] + directive_for(base, "symphony"@, "symphony=info"@) + directive_for(
            base,
            "symphony_rust"@,
            "symphony_rust=info"@,
        ),
        ","@,
    )
}

fn push_directive(directives: &mut Vec<String>, base: &str, target: &str, directive: &str)
    ensures
        texts(final(directives)@) == texts(old(directives)@) + directive_for(
            base@,
            target@,
            directive@,
        ),
{
    let ghost had = texts(directives@);
    if !has_target_directive(base, target) {
        directives.push(owned(directive));
    }
    proof {
        assert(texts(directives@) =~= had + directive_for(base@, target@, directive@));
    }
}

/// The filter: what is asked for, and the program's own messages unless something is asked
/// for them.
pub fn build_filter_spec(env_spec: Option<&str>) -> (r: String)
    ensures
        r@ == filter_spec(opt_str(env_spec)),
{
    let base: String = match env_spec {
        Some(spec) => {
            let spec: String = trim(spec);
            if same(spec.as_str(), "") {
                owned(DEFAULT_LOG_FILTER)
            } else {
                spec
            }
        },
        None => owned(DEFAULT_LOG_FILTER),
    };
    let mut directives: Vec<String> = Vec::new();
    directives.push(owned(base.as_str()));
    proof {
        assert(texts(directives@) =~= seq![base@]);
    }
    push_directive(&mut directives, base.as_str(), "symphony", "symphony=info");
    push_directive(&mut directives, base.as_str(), "symphony_rust", "symphony_rust=info");
    join(&directives, ",")
}

// ---------------------------------------------------------------------------
// Rotation
// ---------------------------------------------------------------------------

/// Whether the file makes room before something is written: where it would grow over the
/// limit, but never an empty file. Sizes are counted up to 64 bits.
pub open spec fn must_rotate(max_bytes: u64, current_size: u64, incoming_bytes: u64) -> bool {
    max_bytes == 0 || (current_size != 0 && current_size + incoming_bytes > max_bytes
        && max_bytes < u64::MAX)
}

/// Whether the file makes room before something is written. `current_size` is 0 where
/// there is no file.
pub fn rotation_needed(max_bytes: u64, current_size: u64, incoming_bytes: u64) -> (r: bool)
    ensures
        r == must_rotate(max_bytes, current_size, incoming_bytes),
{
    max_bytes == 0 || (current_size != 0 && current_size.saturating_add(incoming_bytes)
        > max_bytes)
}

/// A step of a rotation. Files are numbered: 0 is the file that is written to, and 1, 2
/// and so on are the older ones.
#[derive(Clone, Copy, Debug, PartialEq, Eq, Structural)]
pub enum RotationStep {
    /// The file is removed, if it is there.
    Remove(usize),
    /// The first file takes the place of the second, if it is there.
    Move(usize, usize),
}

/// The moves from one file down to the first: each takes the place of the next older one.
pub open spec fn moves(from: nat) -> Seq<RotationStep>
    decreases from,
{
    if from == 0 {
        seq![RotationStep::Move(0, 1)]
    } else {
        seq![RotationStep::Move(from as usize, (from + 1) as usize)] + moves((from - 1) as nat)
    }
}

/// The steps of a rotation.
pub open spec fn rotation(max_files: nat) -> Seq<RotationStep> {
    if max_files == 0 {
        seq![RotationStep::Remove(0)]
    } else {
        seq![RotationStep::Remove(max_files as usize)] + moves((max_files - 1) as nat)
    }
}

/// The steps of a rotation.
pub fn rotate_files(max_files: usize) -> (r: Vec<RotationStep>)
    ensures
        r@ == rotation(max_files as nat),
{
    let mut steps: Vec<RotationStep> = Vec::new();
    if max_files == 0 {
        steps.push(RotationStep::Remove(0));
        proof {
            assert(steps@ =~= rotation(0));
        }
        return steps;
    }
    steps.push(RotationStep::Remove(max_files));
    let mut i: usize = max_files - 1;
    while i > 0
        invariant
            i < max_files,
            steps@ + moves(i as nat) =~= rotation(max_files as nat),
        decreases i,
    {
        let ghost had = steps@;
        steps.push(RotationStep::Move(i, i + 1));
        proof {
            assert(steps@ + moves((i - 1) as nat) =~= had + moves(i as nat));
        }
        i = i - 1;
    }
    steps.push(RotationStep::Move(0, 1));
    steps
}

/// The name of a file.
pub open spec fn file_name(path: Seq<char>, index: nat) -> Seq<char> {
    if index == 0 {
        path
    } else {
        path + "."@ + decimal(index)
    }
}

/// The name of a file.
pub fn rotated_path(path: &str, index: usize) -> (r: String)
    ensures
        r@ == file_name(path@, index as nat),
{
    if index == 0 {
        owned(path)
    } else {
        let n: String = usize_text(index);
        concat3(path, ".", n.as_str())
    }
}

// ---------------------------------------------------------------------------
// Laws
// ---------------------------------------------------------------------------

/// What the files hold after a step.
pub open spec fn after_step(files: Map<nat, Seq<u8>>, step: RotationStep) -> Map<nat, Seq<u8>> {
    match step {
        RotationStep::Remove(at) => files.remove(at as nat),
        RotationStep::Move(from, to) => if files.contains_key(from as nat) {
            files.insert(to as nat, files[from as nat]).remove(from as nat)
        } else {
            files
        },
    }
}

/// What the files hold after some steps.
pub open spec fn after_steps(files: Map<nat, Seq<u8>>, steps: Seq<RotationStep>) -> Map<
    nat,
    Seq<u8>,
>
    decreases steps.len(),
{
    if steps.len() == 0 {
        files
    } else {
        after_steps(after_step(files, steps[0]), steps.skip(1))
    }
}

/// What a file holds, if it is there.
pub open spec fn held(files: Map<nat, Seq<u8>>, index: nat) -> Option<Seq<u8>> {
    if files.contains_key(index) {
        Some(files[index])
    } else {
        None
    }
}

proof fn lemma_moves(files: Map<nat, Seq<u8>>, from: nat)
    requires
        from + 1 <= usize::MAX,
        !files.contains_key(from + 1),
    ensures
        ({
            let then = after_steps(files, moves(from));
            &&& !then.contains_key(0)
            &&& forall|i: nat| 1 <= i <= from + 1 ==> #[trigger] held(then, i) == held(
                files,
                (i - 1) as nat,
            )
            &&& forall|i: nat| i > from + 1 ==> #[trigger] held(then, i) == held(files, i)
        }),
    decreases from,
{
    let steps = moves(from);
    let next = after_step(files, steps[0]);
    if from == 0 {
        assert(steps.skip(1) =~= Seq::empty());
        assert(after_steps(next, steps.skip(1)) == next);
    } else {
        assert(steps.skip(1) =~= moves((from - 1) as nat));
        lemma_moves(next, (from - 1) as nat);
        let then = after_steps(files, steps);
        assert(held(next, from + 1) == held(files, from));
        assert forall|i: nat| 1 <= i <= from + 1 implies #[trigger] held(then, i) == held(
            files,
            (i - 1) as nat,
        ) by {
            if i <= from {
                assert(held(next, (i - 1) as nat) == held(files, (i - 1) as nat));
            } else {
                assert(held(then, i) == held(next, i));
            }
        }
        assert forall|i: nat| i > from + 1 implies #[trigger] held(then, i) == held(files, i) by {
            assert(held(next, i) == held(files, i));
        }
    }
}

/// A rotation keeps the newest files: each takes the place of the next older one, the
/// oldest is dropped, and the file that is written to starts anew.
pub proof fn law_rotation_keeps_recent_files(files: Map<nat, Seq<u8>>, max_files: nat)
    requires
        max_files <= usize::MAX,
    ensures
        ({
            let then = after_steps(files, rotation(max_files));
            &&& !then.contains_key(0)
            &&& forall|i: nat| 1 <= i <= max_files ==> #[trigger] held(then, i) == held(
                files,
                (i - 1) as nat,
            )
        }),
{
    let steps = rotation(max_files);
    let next = after_step(files, steps[0]);
    if max_files == 0 {
        assert(steps.skip(1) =~= Seq::empty());
        assert(after_steps(next, steps.skip(1)) == next);
    } else {
        assert(steps.skip(1) =~= moves((max_files - 1) as nat));
        lemma_moves(next, (max_files - 1) as nat);
        let then = after_steps(files, steps);
        assert forall|i: nat| 1 <= i <= max_files implies #[trigger] held(then, i) == held(
            files,
            (i - 1) as nat,
        ) by {
            assert(held(next, (i - 1) as nat) == held(files, (i - 1) as nat));
        }
    }
}

/// No more than the older files and the one that is written to are ever there.
pub proof fn law_rotation_bounds_the_files(files: Map<nat, Seq<u8>>, max_files: nat)
    requires
        max_files <= usize::MAX,
        forall|i: nat| i > max_files ==> !#[trigger] files.contains_key(i),
    ensures
        forall|i: nat|
            i > max_files ==> !#[trigger] after_steps(files, rotation(max_files)).contains_key(i),
{
    let steps = rotation(max_files);
    let next = after_step(files, steps[0]);
    let then = after_steps(files, steps);
    if max_files == 0 {
        assert(steps.skip(1) =~= Seq::empty());
        assert(after_steps(next, steps.skip(1)) == next);
    } else {
        assert(steps.skip(1) =~= moves((max_files - 1) as nat));
        lemma_moves(next, (max_files - 1) as nat);
        assert forall|i: nat| i > max_files implies !#[trigger] then.contains_key(i) by {
            assert(held(then, i) == held(next, i));
            assert(!files.contains_key(i));
        }
    }
}

/// After a write a file is no larger than the limit, unless what was written is larger by
/// itself.
pub proof fn law_files_stay_small(max_bytes: u64, current_size: u64, incoming_bytes: u64)
    requires
        !must_rotate(max_bytes, current_size, incoming_bytes),
        current_size + incoming_bytes <= u64::MAX,
    ensures
        current_size + incoming_bytes <= max_bytes || current_size == 0,
{
}

/// Files have names of their own.
pub proof fn law_files_have_names_of_their_own(path: Seq<char>, a: nat, b: nat)
    requires
        file_name(path, a) == file_name(path, b),
    ensures
        a == b,
{
    reveal_strlit(".");
    let x = file_name(path, a);
    let y = file_name(path, b);
    if a != 0 && b != 0 {
        let n = path.len() as int + 1;
        assert(x.skip(n) =~= decimal(a));
        assert(y.skip(n) =~= decimal(b));
        law_numbers_are_read_back(a);
        law_numbers_are_read_back(b);
    }
}

/// What is asked for comes first in the filter, and where it names none of the program's
/// own targets both of them are added.
pub proof fn law_filters_name_the_program(env_spec: Option<Seq<char>>)
    ensures
        begins(filter_spec(env_spec), filter_base(env_spec)),
        names_target(filter_base(env_spec), "symphony"@) || names_target(
            filter_base(env_spec),
            "symphony_rust"@,
        ) || filter_spec(env_spec) == filter_base(env_spec) + ",symphony=info,symphony_rust=info"@,
{
    let base = filter_base(env_spec);
    let all = seq![base] + directive_for(base, "symphony"@, "symphony=info"@) + directive_for(
        base,
        "symphony_rust"@,
        "symphony_rust=info"@,
    );
    reveal_with_fuel(joined, 4);
    crate::text::lemma_joined_begins(all, ","@);
    assert(all[0] == base);
    if !names_target(base, "symphony"@) && !names_target(base, "symphony_rust"@) {
        reveal_strlit(",");
        reveal_strlit("symphony=info");
        reveal_strlit("symphony_rust=info");
        reveal_strlit(",symphony=info,symphony_rust=info");
        assert(all =~= seq![base, "symphony=info"@, "symphony_rust=info"@]);
        assert(all.drop_last() =~= seq![base, "symphony=info"@]);
        assert(all.drop_last().drop_last() =~= seq![base]);
        assert(joined(all, ","@) =~= base + ",symphony=info,symphony_rust=info"@);
    }
}

} // verus!
