use vstd::prelude::*;

use crate::views::lemma_string_views_push;
use crate::views::string_views;

verus! {

/// The operation requested of the duplicity engine.
#[derive(Clone, Copy, PartialEq, Eq, Structural, Debug)]
pub enum DuplicityMode {
    Full,
    Incremental,
    Clean,
}

/// The retention invocation: keep the two most recent full backup chains.
/// It is parameterized by the target alone; the scan result plays no part.
pub open spec fn duplicity_clean_args(target: Seq<char>) -> Seq<Seq<char>> {
    seq!["remove-all-but-n-full"@, "2"@, target]
}

/// One `--include` flag immediately before each selected path, in order.
pub open spec fn include_args(paths: Seq<Seq<char>>) -> Seq<Seq<char>>
    decreases paths.len(),
{
    if paths.len() == 0 {
        Seq::empty()
    } else {
        include_args(paths.drop_last()) + seq!["--include"@, paths.last()]
    }
}

/// The backup invocation: the mode verb and fixed flags, the signing key,
/// the inclusion filters, the catch-all exclusion, the root and the target.
pub open spec fn duplicity_backup_args(
    verb: Seq<char>,
    key: Seq<char>,
    root: Seq<char>,
    target: Seq<char>,
    paths: Seq<Seq<char>>,
) -> Seq<Seq<char>> {
    seq![
        verb,
        "-v4"@,
        "--archive-dir"@,
        "/var/backups/duplicity"@,
        "--use-agent"@,
        "--encrypt-sign-key"@,
        key,
    ] + include_args(paths) + seq!["--exclude"@, "**"@, root, target]
}

/// Build the argument vector for a duplicity run.
///
/// A clean run ignores the selected paths and the root; a backup run lists
/// every selected path behind its own `--include` flag, in the given order,
/// then excludes everything else under the root.
pub fn args(
    mode: DuplicityMode,
    key: &str,
    root: &str,
    target: &str,
    paths: &Vec<String>,
) -> (r: Vec<String>)
    ensures
        mode == DuplicityMode::Clean ==> string_views(r@) == duplicity_clean_args(target@),
        mode == DuplicityMode::Full ==> string_views(r@) == duplicity_backup_args(
            "full"@,
            key@,
            root@,
            target@,
            string_views(paths@),
        ),
        mode == DuplicityMode::Incremental ==> string_views(r@) == duplicity_backup_args(
            "incremental"@,
            key@,
            root@,
            target@,
            string_views(paths@),
        ),
{
    match mode {
        DuplicityMode::Clean => {
            let mut v: Vec<String> = Vec::new();
            v.push("remove-all-but-n-full".to_owned());
            v.push("2".to_owned());
            v.push(target.to_owned());
            proof {
                assert(string_views(v@) =~= duplicity_clean_args(target@));
            }
            v
        },
        DuplicityMode::Full => backup_args("full", key, root, target, paths),
        DuplicityMode::Incremental => backup_args("incremental", key, root, target, paths),
    }
}

fn backup_args(verb: &str, key: &str, root: &str, target: &str, paths: &Vec<String>) -> (r: Vec<
    String,
>)
    ensures
        string_views(r@) == duplicity_backup_args(verb@, key@, root@, target@, string_views(paths@)),
{
    let ghost pviews: Seq<Seq<char>> = string_views(paths@);
    let mut v: Vec<String> = Vec::new();
    v.push(verb.to_owned());
    v.push("-v4".to_owned());
    v.push("--archive-dir".to_owned());
    v.push("/var/backups/duplicity".to_owned());
    v.push("--use-agent".to_owned());
    v.push("--encrypt-sign-key".to_owned());
    v.push(key.to_owned());
    let ghost prefix: Seq<Seq<char>> = string_views(v@);
    proof {
        assert(prefix =~= seq![
            verb@,
            "-v4"@,
            "--archive-dir"@,
            "/var/backups/duplicity"@,
            "--use-agent"@,
            "--encrypt-sign-key"@,
            key@,
        ]);
        assert(pviews.take(0) =~= Seq::<Seq<char>>::empty());
        assert(string_views(v@) =~= prefix + include_args(pviews.take(0)));
    }
    let mut i: usize = 0;
    while i < paths.len()
        invariant
            i <= paths.len(),
            pviews == string_views(paths@),
            string_views(v@) == prefix + include_args(pviews.take(i as int)),
        decreases paths.len() - i,
    {
        let flag: String = "--include".to_owned();
        let path: String = paths[i].clone();
        let ghost v0 = v@;
        v.push(flag);
        let ghost v1 = v@;
        v.push(path);
        proof {
            lemma_string_views_push(v0, flag);
            lemma_string_views_push(v1, path);
            let inext = i as int + 1;
            assert(pviews.take(inext).drop_last() =~= pviews.take(i as int));
            assert(pviews.take(inext).last() == pviews[i as int]);
            assert(pviews[i as int] == paths@[i as int]@);
            assert(string_views(v@) =~= prefix + include_args(pviews.take(inext)));
        }
        i += 1;
    }
    proof {
        assert(pviews.take(paths@.len() as int) =~= pviews);
    }
    v.push("--exclude".to_owned());
    v.push("**".to_owned());
    v.push(root.to_owned());
    v.push(target.to_owned());
    proof {
        assert(string_views(v@) =~= duplicity_backup_args(
            verb@,
            key@,
            root@,
            target@,
            string_views(paths@),
        ));
    }
    v
}

/// The inclusion filters hold exactly two tokens for each selected path:
/// the flag at each even offset, the path itself right after it, in the
/// order the paths were given.
pub proof fn lemma_include_args_layout(paths: Seq<Seq<char>>)
    ensures
        include_args(paths).len() == 2 * paths.len(),
        forall|j: int|
            0 <= j < 2 * paths.len() ==> #[trigger] include_args(paths)[j] == (if j % 2 == 0 {
                "--include"@
            } else {
                paths[j / 2]
            }),
    decreases paths.len(),
{
    if paths.len() > 0 {
        lemma_include_args_layout(paths.drop_last());
        let pre = include_args(paths.drop_last());
        let tail = seq!["--include"@, paths.last()];
        assert(include_args(paths) == pre + tail);
        assert forall|j: int| 0 <= j < 2 * paths.len() implies #[trigger] include_args(paths)[j]
            == (if j % 2 == 0 {
            "--include"@
        } else {
            paths[j / 2]
        }) by {
            if j < 2 * (paths.len() - 1) {
                assert(include_args(paths)[j] == pre[j]);
                assert(paths.drop_last()[j / 2] == paths[j / 2]);
            } else {
                assert(include_args(paths)[j] == tail[j - 2 * (paths.len() - 1)]);
                assert(paths.last() == paths[j / 2]);
            }
        }
    }
}

/// The built duplicity backup vector holds exactly `2 * |paths|` inclusion
/// tokens after its seven fixed leading tokens and before its four trailing
/// ones: each selected path right behind its own `--include` flag, in the
/// order the paths were given.
pub proof fn lemma_duplicity_backup_layout(
    verb: Seq<char>,
    key: Seq<char>,
    root: Seq<char>,
    target: Seq<char>,
    paths: Seq<Seq<char>>,
)
    ensures
        duplicity_backup_args(verb, key, root, target, paths).len() == 11 + 2 * paths.len(),
        duplicity_backup_args(verb, key, root, target, paths).subrange(7, 7 + 2 * paths.len() as int)
            == include_args(paths),
{
    lemma_include_args_layout(paths);
    let pre = seq![verb, "-v4"@, "--archive-dir"@, "/var/backups/duplicity"@, "--use-agent"@, "--encrypt-sign-key"@, key];
    let inc = include_args(paths);
    let suf = seq!["--exclude"@, "**"@, root, target];
    let a = duplicity_backup_args(verb, key, root, target, paths);
    assert(a == (pre + inc) + suf);
    assert(pre.len() == 7);
    assert(suf.len() == 4);
    assert forall|k: int| 0 <= k < 2 * paths.len() implies a.subrange(7, 7 + 2 * paths.len() as int)[k]
        == inc[k] by {
        assert(a.subrange(7, 7 + 2 * paths.len() as int)[k] == a[7 + k]);
        assert(((pre + inc) + suf)[7 + k] == (pre + inc)[7 + k]);
        assert((pre + inc)[7 + k] == inc[k]);
    }
    assert(a.subrange(7, 7 + 2 * paths.len() as int) =~= inc);
}

}
