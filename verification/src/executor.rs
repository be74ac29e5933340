//! The arguments of the rsync and ssh runs that carry out a plan.

use vstd::prelude::*;
use crate::models::ServerProfile;
use crate::models::FilterMode;
use crate::planner::{
    excludes_git_dir, spec_excludes_git_dir, CompareMode, DeleteMode, SyncPlan, SyncPlanView,
};
use crate::prompts::{server_label, spec_server_label};
use crate::text::{decimal, push_char, push_decimal, push_str, push_string, strings_view};

verus! {

/// A one-element list when `b` holds, else the empty list.
pub open spec fn arg_if(b: bool, arg: Seq<char>) -> Seq<Seq<char>> {
    if b {
        seq![arg]
    } else {
        seq![]
    }
}

/// The `-e` option value that makes rsync reach the host over ssh on `port`.
pub open spec fn spec_ssh_command(port: u16) -> Seq<char> {
    "ssh -p "@ + decimal(port as nat)
}

/// The rsync arguments of a plan: the fixed options, then the strategy
/// options, then the filter options, then source and destination.
pub open spec fn spec_rsync_args(plan: SyncPlanView) -> Seq<Seq<char>> {
    seq!["-azP"@, "--itemize-changes"@, "--stats"@, "-e"@, spec_ssh_command(plan.port)]
        + arg_if(plan.policy.compare_mode == CompareMode::Checksum, "--checksum"@)
        + arg_if(plan.policy.delete_mode == DeleteMode::DeleteExtra, "--delete-delay"@)
        + arg_if(plan.policy.dry_run, "--dry-run"@)
        + match plan.local_filter_file {
        Some(path) => seq!["--exclude-from"@, path],
        None => seq![],
    } + arg_if(spec_excludes_git_dir(plan.filter_mode), "--exclude=.git/"@) + seq![
        plan.source_arg,
        plan.destination_arg,
    ]
}

/// The rsync arguments that carry out `plan`, as `spec_rsync_args` lists them.
pub fn build_rsync_args(plan: &SyncPlan) -> (args: Vec<String>)
    ensures
        strings_view(args@) == spec_rsync_args(plan@),
{
    let mut args: Vec<String> = Vec::new();
    push_str(&mut args, "-azP");
    push_str(&mut args, "--itemize-changes");
    push_str(&mut args, "--stats");
    push_str(&mut args, "-e");
    let mut ssh = String::from_str("ssh -p ");
    push_decimal(&mut ssh, plan.port);
    push_string(&mut args, ssh);
    let ghost base = strings_view(args@);
    assert(base =~= seq!["-azP"@, "--itemize-changes"@, "--stats"@, "-e"@, spec_ssh_command(plan.port)]);
    if plan.policy.compare_mode == CompareMode::Checksum {
        push_str(&mut args, "--checksum");
    }
    let ghost a1 = base + arg_if(plan.policy.compare_mode == CompareMode::Checksum, "--checksum"@);
    assert(strings_view(args@) =~= a1);
    if plan.policy.delete_mode == DeleteMode::DeleteExtra {
        push_str(&mut args, "--delete-delay");
    }
    let ghost a2 = a1 + arg_if(plan.policy.delete_mode == DeleteMode::DeleteExtra, "--delete-delay"@);
    assert(strings_view(args@) =~= a2);
    if plan.policy.dry_run {
        push_str(&mut args, "--dry-run");
    }
    let ghost a3 = a2 + arg_if(plan.policy.dry_run, "--dry-run"@);
    assert(strings_view(args@) =~= a3);
    match &plan.local_filter_file {
        Some(path) => {
            push_str(&mut args, "--exclude-from");
            push_str(&mut args, path.as_str());
        },
        None => {},
    }
    let ghost a4 = a3 + match plan@.local_filter_file {
        Some(path) => seq!["--exclude-from"@, path],
        None => seq![],
    };
    assert(strings_view(args@) =~= a4);
    if excludes_git_dir(plan.filter_mode) {
        push_str(&mut args, "--exclude=.git/");
    }
    let ghost a5 = a4 + arg_if(spec_excludes_git_dir(plan.filter_mode), "--exclude=.git/"@);
    assert(strings_view(args@) =~= a5);
    push_str(&mut args, plan.source_arg.as_str());
    push_str(&mut args, plan.destination_arg.as_str());
    assert(strings_view(args@) =~= a5 + seq![plan.source_arg@, plan.destination_arg@]);
    args
}

/// The rsync arguments of every plan start with the fixed options and the ssh
/// command on the plan's port and end with its source and destination; in
/// between, `--checksum` stands exactly when the plan compares checksums,
/// `--delete-delay` exactly when it deletes extra files, `--dry-run` exactly
/// for a dry run, `--exclude=.git/` exactly for the two filter modes that
/// exclude `.git/`, and `--exclude-from` exactly when there is an exclude
/// file (whose name is none of these options).
pub proof fn lemma_rsync_flags_follow_plan(plan: SyncPlanView)
    requires
        plan.local_filter_file matches Some(f) ==> f != "--checksum"@ && f != "--delete-delay"@
            && f != "--dry-run"@ && f != "--exclude=.git/"@ && f != "--exclude-from"@,
    ensures
        ({
            let a = spec_rsync_args(plan);
            let opts = a.subrange(5, a.len() - 2);
            &&& a.len() >= 7
            &&& a.subrange(0, 5) == seq![
                "-azP"@,
                "--itemize-changes"@,
                "--stats"@,
                "-e"@,
                "ssh -p "@ + decimal(plan.port as nat),
            ]
            &&& a[a.len() - 2] == plan.source_arg
            &&& a[a.len() - 1] == plan.destination_arg
            &&& (opts.contains("--checksum"@) <==> plan.policy.compare_mode == CompareMode::Checksum)
            &&& (opts.contains("--delete-delay"@) <==> plan.policy.delete_mode
                == DeleteMode::DeleteExtra)
            &&& (opts.contains("--dry-run"@) <==> plan.policy.dry_run)
            &&& (opts.contains("--exclude=.git/"@) <==> (plan.filter_mode == FilterMode::ExcludeGitDir
                || plan.filter_mode == FilterMode::LocalGitignoreAndGitDir))
            &&& (opts.contains("--exclude-from"@) <==> plan.local_filter_file is Some)
        }),
{
    broadcast use vstd::seq_lib::lemma_seq_concat_contains_all_elements;

    reveal_strlit("--checksum");
    reveal_strlit("--delete-delay");
    reveal_strlit("--dry-run");
    reveal_strlit("--exclude=.git/");
    reveal_strlit("--exclude-from");
    let a = spec_rsync_args(plan);
    let cs = arg_if(plan.policy.compare_mode == CompareMode::Checksum, "--checksum"@);
    let del = arg_if(plan.policy.delete_mode == DeleteMode::DeleteExtra, "--delete-delay"@);
    let dry = arg_if(plan.policy.dry_run, "--dry-run"@);
    let ff: Seq<Seq<char>> = match plan.local_filter_file {
        Some(path) => seq!["--exclude-from"@, path],
        None => seq![],
    };
    let git = arg_if(spec_excludes_git_dir(plan.filter_mode), "--exclude=.git/"@);
    let fixed = seq![
        "-azP"@,
        "--itemize-changes"@,
        "--stats"@,
        "-e"@,
        "ssh -p "@ + decimal(plan.port as nat),
    ];
    let opts = cs + del + dry + ff + git;
    assert(a =~= fixed + opts + seq![plan.source_arg, plan.destination_arg]);
    assert(a.subrange(5, a.len() - 2) =~= opts);
    assert(a.subrange(0, 5) =~= fixed);
    assert("--delete-delay"@.len() == 14);
    assert("--dry-run"@.len() == 9);
    assert("--exclude=.git/"@.len() == 15);
    assert("--exclude-from"@.len() == 14);
    assert("--checksum"@ != "--delete-delay"@ && "--checksum"@ != "--dry-run"@ && "--checksum"@
        != "--exclude=.git/"@ && "--checksum"@ != "--exclude-from"@) by {
        assert("--checksum"@.len() == 10);
        assert("--checksum"@[2] != "--dry-run"@[2]);
    }
    assert("--delete-delay"@ != "--dry-run"@ && "--delete-delay"@ != "--exclude=.git/"@
        && "--delete-delay"@ != "--exclude-from"@) by {
        assert("--delete-delay"@[2] != "--exclude-from"@[2]);
    }
    assert("--dry-run"@ != "--exclude=.git/"@ && "--dry-run"@ != "--exclude-from"@);
    assert("--exclude=.git/"@ != "--exclude-from"@);
    assert forall|x: Seq<char>, e: Seq<char>| #[trigger] seq![x].contains(e) <==> x == e by {
        if x == e {
            assert(seq![x][0] == e);
        }
    }
    assert(!Seq::<Seq<char>>::empty().contains("--checksum"@));
    assert(!Seq::<Seq<char>>::empty().contains("--delete-delay"@));
    assert(!Seq::<Seq<char>>::empty().contains("--dry-run"@));
    assert(!Seq::<Seq<char>>::empty().contains("--exclude=.git/"@));
    assert(!Seq::<Seq<char>>::empty().contains("--exclude-from"@));
    match plan.local_filter_file {
        Some(path) => {
            assert(ff =~= seq!["--exclude-from"@] + seq![path]);
        },
        None => {},
    }
}

/// The characters that stand for one character inside a single-quoted shell
/// word: a quote closes the quoting, is given in double quotes, and reopens it.
pub open spec fn quote_char(c: char) -> Seq<char> {
    if c == '\'' {
        seq!['\'', '"', '\'', '"', '\'']
    } else {
        seq![c]
    }
}

/// The text between the quotes of a single-quoted shell word for `s`.
pub open spec fn escape_single_quotes(s: Seq<char>) -> Seq<char>
    decreases s.len(),
{
    if s.len() == 0 {
        seq![]
    } else {
        quote_char(s[0]) + escape_single_quotes(s.drop_first())
    }
}

/// `s` as one single-quoted shell word.
pub open spec fn shell_quote(s: Seq<char>) -> Seq<char> {
    seq!['\''] + escape_single_quotes(s) + seq!['\'']
}

/// Escaping distributes over concatenation.
pub proof fn lemma_escape_concat(a: Seq<char>, b: Seq<char>)
    ensures
        escape_single_quotes(a + b) == escape_single_quotes(a) + escape_single_quotes(b),
    decreases a.len(),
{
    if a.len() == 0 {
        assert(a + b =~= b);
    } else {
        assert((a + b).drop_first() =~= a.drop_first() + b);
        lemma_escape_concat(a.drop_first(), b);
        assert(escape_single_quotes(a + b) =~= escape_single_quotes(a) + escape_single_quotes(b));
    }
}

/// A single character is escaped as `quote_char` says.
proof fn lemma_escape_single(c: char)
    ensures
        escape_single_quotes(seq![c]) == quote_char(c),
{
    assert(seq![c].drop_first() =~= Seq::<char>::empty());
    assert(escape_single_quotes(Seq::<char>::empty()) == Seq::<char>::empty());
    assert(seq![c][0] == c);
    assert(escape_single_quotes(seq![c]) =~= quote_char(c) + Seq::<char>::empty());
}

/// `s` as one single-quoted shell word, so that the shell reads `s` back.
pub fn shell_single_quote(input: &str) -> (quoted: String)
    ensures
        quoted@ == shell_quote(input@),
{
    let n = input.unicode_len();
    let mut quoted = String::new();
    push_char(&mut quoted, '\'');
    let mut i: usize = 0;
    while i < n
        invariant
            i <= n,
            n == input@.len(),
            quoted@ == seq!['\''] + escape_single_quotes(input@.subrange(0, i as int)),
        decreases n - i,
    {
        let c = input.get_char(i);
        if c == '\'' {
            push_char(&mut quoted, '\'');
            push_char(&mut quoted, '"');
            push_char(&mut quoted, '\'');
            push_char(&mut quoted, '"');
            push_char(&mut quoted, '\'');
        } else {
            push_char(&mut quoted, c);
        }
        proof {
            let a = input@.subrange(0, i as int);
            assert(input@.subrange(0, i + 1) =~= a + seq![c]);
            lemma_escape_concat(a, seq![c]);
            lemma_escape_single(c);
        }
        assert(quoted@ =~= seq!['\''] + escape_single_quotes(input@.subrange(0, i + 1)));
        i = i + 1;
    }
    assert(input@.subrange(0, n as int) =~= input@);
    push_char(&mut quoted, '\'');
    assert(quoted@ =~= shell_quote(input@));
    quoted
}

/// The first position at or after `i` that holds `c`, or -1.
pub open spec fn index_of_from(t: Seq<char>, c: char, i: int) -> int
    decreases t.len() - i,
{
    if i < 0 || i >= t.len() {
        -1
    } else if t[i] == c {
        i
    } else {
        index_of_from(t, c, i + 1)
    }
}

/// `index_of_from` finds the first `c` at or after `i`, or reports that there is none.
pub proof fn lemma_index_of_from(t: Seq<char>, c: char, i: int)
    requires
        0 <= i <= t.len(),
    ensures
        ({
            let r = index_of_from(t, c, i);
            ||| r == -1 && forall|k: int| i <= k < t.len() ==> t[k] != c
            ||| i <= r < t.len() && t[r] == c && forall|k: int| i <= k < r ==> t[k] != c
        }),
    decreases t.len() - i,
{
    if i < t.len() && t[i] != c {
        lemma_index_of_from(t, c, i + 1);
    }
}

/// Characters that keep a special meaning inside double quotes.
pub open spec fn is_double_quote_special(c: char) -> bool {
    c == '\\' || c == '$' || c == '`'
}

/// The word that a POSIX shell reads from `t`, when `t` is made of
/// single-quoted parts and of double-quoted parts free of `\`, `$` and `` ` ``;
/// none when `t` holds anything else.
pub open spec fn shell_word(t: Seq<char>) -> Option<Seq<char>>
    decreases t.len(),
{
    if t.len() == 0 {
        Some(seq![])
    } else if t[0] == '\'' || t[0] == '"' {
        let close = index_of_from(t, t[0], 1);
        if close < 1 {
            None
        } else {
            let content = t.subrange(1, close);
            if t[0] == '"' && exists|k: int|
                0 <= k < content.len() && is_double_quote_special(#[trigger] content[k]) {
                None
            } else {
                proof {
                    lemma_index_of_from(t, t[0], 1);
                }
                match shell_word(t.subrange(close + 1, t.len() as int)) {
                    Some(rest) => Some(content + rest),
                    None => None,
                }
            }
        }
    } else {
        None
    }
}

proof fn lemma_escape_plain(s: Seq<char>)
    requires
        forall|k: int| 0 <= k < s.len() ==> s[k] != '\'',
    ensures
        escape_single_quotes(s) == s,
    decreases s.len(),
{
    if s.len() > 0 {
        lemma_escape_plain(s.drop_first());
        assert(escape_single_quotes(s) =~= s);
    }
}

/// The shell reads back exactly what was quoted: whatever `s` holds, the
/// single-quoted word `shell_quote(s)` stands for `s` itself.
pub proof fn lemma_shell_quote_reads_back(s: Seq<char>)
    ensures
        shell_word(shell_quote(s)) == Some(s),
    decreases s.len(),
{
    let t = shell_quote(s);
    lemma_index_of_from(s, '\'', 0);
    let j = index_of_from(s, '\'', 0);
    if j == -1 {
        lemma_escape_plain(s);
        assert(t =~= seq!['\''] + s + seq!['\'']);
        lemma_index_of_from(t, '\'', 1);
        let close = index_of_from(t, '\'', 1);
        assert(t[s.len() as int + 1] == '\'');
        assert forall|k: int| 1 <= k < s.len() + 1 implies t[k] != '\'' by {
            assert(t[k] == s[k - 1]);
        }
        assert(close == s.len() + 1);
        assert(t.subrange(1, close) =~= s);
        assert(t.subrange(close + 1, t.len() as int) =~= Seq::<char>::empty());
        assert(shell_word(Seq::<char>::empty()) == Some(Seq::<char>::empty()));
        assert(s + Seq::<char>::empty() =~= s);
    } else {
        let p = s.subrange(0, j);
        let q = s.subrange(j + 1, s.len() as int);
        let q5 = seq!['\'', '"', '\'', '"', '\''];
        assert(s =~= p + seq!['\''] + q);
        assert forall|k: int| 0 <= k < p.len() implies p[k] != '\'' by {
            assert(p[k] == s[k]);
        }
        lemma_escape_plain(p);
        lemma_escape_concat(p + seq!['\''], q);
        lemma_escape_concat(p, seq!['\'']);
        lemma_escape_single('\'');
        assert(escape_single_quotes(s) =~= p + q5 + escape_single_quotes(q));
        assert(t =~= seq!['\''] + p + q5 + escape_single_quotes(q) + seq!['\'']);
        // the first single-quoted part holds `p`
        lemma_index_of_from(t, '\'', 1);
        assert(t[j + 1] == '\'');
        assert forall|k: int| 1 <= k < j + 1 implies t[k] != '\'' by {
            assert(t[k] == p[k - 1]);
        }
        let close = index_of_from(t, '\'', 1);
        assert(close == j + 1);
        assert(t.subrange(1, close) =~= p);
        let rest1 = t.subrange(close + 1, t.len() as int);
        assert(rest1 =~= seq!['"', '\'', '"'] + seq!['\''] + escape_single_quotes(q) + seq!['\'']);
        // then a double-quoted part holds the quote
        lemma_index_of_from(rest1, '"', 1);
        assert(rest1[1] == '\'');
        assert(rest1[2] == '"');
        let close2 = index_of_from(rest1, '"', 1);
        assert(close2 == 2);
        let content2 = rest1.subrange(1, close2);
        assert(content2 =~= seq!['\'']);
        assert(!exists|k: int|
            0 <= k < content2.len() && is_double_quote_special(#[trigger] content2[k]));
        let rest2 = rest1.subrange(close2 + 1, rest1.len() as int);
        assert(rest2 =~= shell_quote(q));
        // and the rest is the quoted remainder
        lemma_shell_quote_reads_back(q);
        assert(shell_word(rest1) == Some(seq!['\''] + q));
        assert(shell_word(t) == Some(p + (seq!['\''] + q)));
        assert(p + (seq!['\''] + q) =~= s);
    }
}

/// The shell command that creates `path` and its parents on the remote host.
pub open spec fn spec_remote_mkdir_command(path: Seq<char>) -> Seq<char> {
    "mkdir -p "@ + shell_quote(path)
}

/// The ssh arguments that create `path` on the remote host before a push.
pub open spec fn spec_remote_mkdir_args(server: ServerProfile, port: u16, path: Seq<char>) -> Seq<
    Seq<char>,
> {
    seq!["-p"@, decimal(port as nat), spec_server_label(server), spec_remote_mkdir_command(path)]
}

/// The ssh arguments that create `path` on the remote host before a push:
/// the port, `user@host`, and `mkdir -p` with the path single-quoted.
pub fn remote_mkdir_args(server: &ServerProfile, port: u16, path: &str) -> (args: Vec<String>)
    ensures
        strings_view(args@) == spec_remote_mkdir_args(*server, port, path@),
{
    let mut args: Vec<String> = Vec::new();
    push_str(&mut args, "-p");
    let mut port_text = String::new();
    push_decimal(&mut port_text, port);
    push_string(&mut args, port_text);
    push_string(&mut args, server_label(server));
    let mut command = String::from_str("mkdir -p ");
    command.append(shell_single_quote(path).as_str());
    push_string(&mut args, command);
    assert(strings_view(args@) =~= spec_remote_mkdir_args(*server, port, path@));
    args
}

} // verus!
