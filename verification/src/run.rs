use vstd::prelude::*;

use crate::duplicity;
use crate::duplicity::DuplicityMode;
use crate::plan::Action;
use crate::restic;
use crate::restic::ResticMode;
use crate::scan;
use crate::scan::ScanNote;
use crate::scan::WalkEvent;
use crate::scan::note_views;
use crate::scan::notes_of;
use crate::scan::outcome_matches;
use crate::scan::selected_of;
use crate::views::string_views;

verus! {

/// What the process should do next: hand itself over to an engine with an
/// argument vector, or print the selected paths; either way after reporting
/// the scan's diagnostics.
#[derive(Debug, Clone, PartialEq, Eq)]
pub enum Launch {
    Exec { program: String, args: Vec<String>, notes: Vec<ScanNote> },
    Print { lines: Vec<String>, notes: Vec<ScanNote> },
}

/// Whether a launch is exactly what the given action and tag call for: the
/// right program, an argument vector built by that engine's rules from the
/// paths some walk selected, and that walk's diagnostics. A clean run scans
/// nothing and reports nothing.
pub open spec fn launch_matches(action: Action, tag: Seq<u8>, r: Launch) -> bool {
    match action {
        Action::RunDuplicity { mode, root, key, target } => if mode == DuplicityMode::Clean {
            r matches Launch::Exec { program, args, notes } && program@ == "duplicity"@
                && string_views(args@) == duplicity::duplicity_clean_args(target@) && notes@
                == Seq::<ScanNote>::empty()
        } else {
            r matches Launch::Exec { program, args, notes } && program@ == "duplicity"@ && exists|
                events: Seq<WalkEvent>,
            |
                string_views(args@) == duplicity::duplicity_backup_args(
                    if mode == DuplicityMode::Full {
                        "full"@
                    } else {
                        "incremental"@
                    },
                    key@,
                    root@,
                    target@,
                    #[trigger] selected_of(events, tag),
                ) && note_views(notes@) == notes_of(events)
        },
        Action::RunRestic { mode, root, password_file } => if mode == ResticMode::Clean {
            r matches Launch::Exec { program, args, notes } && program@ == "restic"@
                && string_views(args@) == restic::restic_clean_args(password_file@) && notes@
                == Seq::<ScanNote>::empty()
        } else {
            r matches Launch::Exec { program, args, notes } && program@ == "restic"@ && exists|
                events: Seq<WalkEvent>,
            |
                string_views(args@) == restic::restic_backup_args(
                    password_file@,
                    #[trigger] selected_of(events, tag),
                ) && note_views(notes@) == notes_of(events)
        },
        Action::ListPaths { root } => r matches Launch::Print { lines, notes } && exists|
            events: Seq<WalkEvent>,
        |
            string_views(lines@) == #[trigger] selected_of(events, tag) && note_views(notes@)
                == notes_of(events),
    }
}

/// Carry out a validated action: scan where the action calls for a scan,
/// and assemble the engine invocation or the listing from what came back.
pub fn perform(action: Action, tag: &Vec<u8>) -> (r: Launch)
    ensures
        launch_matches(action, tag@, r),
{
    match action {
        Action::RunDuplicity { mode, root, key, target } => match mode {
            DuplicityMode::Clean => {
                let none: Vec<String> = Vec::new();
                let args = duplicity::args(
                    DuplicityMode::Clean,
                    key.as_str(),
                    root.as_str(),
                    target.as_str(),
                    &none,
                );
                Launch::Exec { program: "duplicity".to_owned(), args, notes: Vec::new() }
            },
            _ => {
                let outcome = scan::find_paths(root.as_str(), tag);
                let args = duplicity::args(
                    mode,
                    key.as_str(),
                    root.as_str(),
                    target.as_str(),
                    &outcome.selected,
                );
                proof {
                    let events = choose|events: Seq<WalkEvent>|
                        outcome_matches(outcome, events, tag@);
                    assert(string_views(outcome.selected@) == selected_of(events, tag@));
                }
                Launch::Exec { program: "duplicity".to_owned(), args, notes: outcome.notes }
            },
        },
        Action::RunRestic { mode, root, password_file } => match mode {
            ResticMode::Clean => {
                let none: Vec<String> = Vec::new();
                let args = restic::args(ResticMode::Clean, password_file.as_str(), &none);
                Launch::Exec { program: "restic".to_owned(), args, notes: Vec::new() }
            },
            ResticMode::Backup => {
                let outcome = scan::find_paths(root.as_str(), tag);
                let args = restic::args(ResticMode::Backup, password_file.as_str(), &outcome.selected);
                proof {
                    let events = choose|events: Seq<WalkEvent>|
                        outcome_matches(outcome, events, tag@);
                    assert(string_views(outcome.selected@) == selected_of(events, tag@));
                }
                Launch::Exec { program: "restic".to_owned(), args, notes: outcome.notes }
            },
        },
        Action::ListPaths { root } => {
            let outcome = scan::find_paths(root.as_str(), tag);
            proof {
                let events = choose|events: Seq<WalkEvent>| outcome_matches(outcome, events, tag@);
                assert(string_views(outcome.selected@) == selected_of(events, tag@));
            }
            Launch::Print { lines: outcome.selected, notes: outcome.notes }
        },
    }
}

}
