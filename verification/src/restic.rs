use vstd::prelude::*;

use crate::views::lemma_string_views_push;
use crate::views::string_views;

verus! {

/// The operation requested of the restic engine.
#[derive(Clone, Copy, PartialEq, Eq, Structural, Debug)]
pub enum ResticMode {
    Backup,
    Clean,
}

/// The retention invocation: keep seven daily and two weekly snapshots,
/// then prune. It is parameterized by the password file alone; the scan
/// result plays no part.
pub open spec fn restic_clean_args(password_file: Seq<char>) -> Seq<Seq<char>> {
    seq![
        "-p"@,
        password_file,
        "forget"@,
        "--keep-daily"@,
        "7"@,
        "--keep-weekly"@,
        "2"@,
        "--prune"@,
    ]
}

/// The backup invocation: the password file, the verb, then every selected
/// path as a bare positional argument, in order.
pub open spec fn restic_backup_args(password_file: Seq<char>, paths: Seq<Seq<char>>) -> Seq<
    Seq<char>,
> {
    seq!["-p"@, password_file, "backup"@] + paths
}

/// Build the argument vector for a restic run.
///
/// A clean run ignores the selected paths; a backup run appends every
/// selected path as its own positional argument, in the given order.
pub fn args(mode: ResticMode, password_file: &str, paths: &Vec<String>) -> (r: Vec<String>)
    ensures
        mode == ResticMode::Clean ==> string_views(r@) == restic_clean_args(password_file@),
        mode == ResticMode::Backup ==> string_views(r@) == restic_backup_args(
            password_file@,
            string_views(paths@),
        ),
{
    match mode {
        ResticMode::Clean => {
            let mut v: Vec<String> = Vec::new();
            v.push("-p".to_owned());
            v.push(password_file.to_owned());
            v.push("forget".to_owned());
            v.push("--keep-daily".to_owned());
            v.push("7".to_owned());
            v.push("--keep-weekly".to_owned());
            v.push("2".to_owned());
            v.push("--prune".to_owned());
            proof {
                assert(string_views(v@) =~= restic_clean_args(password_file@));
            }
            v
        },
        ResticMode::Backup => {
            let ghost pviews: Seq<Seq<char>> = string_views(paths@);
            let mut v: Vec<String> = Vec::new();
            v.push("-p".to_owned());
            v.push(password_file.to_owned());
            v.push("backup".to_owned());
            let ghost prefix: Seq<Seq<char>> = string_views(v@);
            proof {
                assert(prefix =~= seq!["-p"@, password_file@, "backup"@]);
                assert(string_views(v@) =~= prefix + pviews.take(0));
            }
            let mut i: usize = 0;
            while i < paths.len()
                invariant
                    i <= paths.len(),
                    pviews == string_views(paths@),
                    string_views(v@) == prefix + pviews.take(i as int),
                decreases paths.len() - i,
            {
                let path: String = paths[i].clone();
                let ghost v0 = v@;
                v.push(path);
                proof {
                    lemma_string_views_push(v0, path);
                    assert(string_views(v@) =~= prefix + pviews.take(i as int + 1));
                }
                i += 1;
            }
            proof {
                assert(pviews.take(paths@.len() as int) =~= pviews);
            }
            v
        },
    }
}

/// The built restic backup vector holds exactly `|paths|` bare path tokens
/// right after its three leading tokens, in the order the paths were given.
pub proof fn lemma_restic_backup_layout(password_file: Seq<char>, paths: Seq<Seq<char>>)
    ensures
        restic_backup_args(password_file, paths).len() == 3 + paths.len(),
        restic_backup_args(password_file, paths).subrange(3, 3 + paths.len() as int) == paths,
{
    let pre = seq!["-p"@, password_file, "backup"@];
    let a = restic_backup_args(password_file, paths);
    assert(a == pre + paths);
    assert(pre.len() == 3);
    assert forall|k: int| 0 <= k < paths.len() implies a.subrange(3, 3 + paths.len() as int)[k]
        == paths[k] by {
        assert(a.subrange(3, 3 + paths.len() as int)[k] == a[3 + k]);
        assert((pre + paths)[3 + k] == paths[k]);
    }
    assert(a.subrange(3, 3 + paths.len() as int) =~= paths);
}

}
