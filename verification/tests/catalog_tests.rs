use cargui::CommandGroup;
use cargui::SelectedCommand;
use cargui::default_catalog;
use cargui::is_selected;
use cargui::release_allowed;
use cargui::selection_flags;
use cargui::toggle_selection;

#[test]
fn default_catalog_shape() {
    let c = default_catalog();
    assert_eq!(c.primary.len(), 2);
    assert_eq!(c.primary[0].label, "Build");
    assert_eq!(c.primary[0].subcommand, "build");
    assert!(c.primary[0].supports_release);
    assert!(!c.primary[0].allows_program_args);
    assert_eq!(c.primary[1].subcommand, "run");
    assert!(c.primary[1].allows_program_args);
    assert_eq!(c.secondary.len(), 7);
    assert_eq!(c.secondary[1].subcommand, "test");
    assert!(c.secondary[1].supports_release);
    assert!(c.secondary[1].allows_program_args);
    assert_eq!(c.secondary[2].subcommand, "fmt");
    assert!(!c.secondary[2].supports_release);
}

#[test]
fn lookup_in_range_and_stale() {
    let c = default_catalog();
    let hit = c.lookup(CommandGroup::Secondary, 4).expect("doc row");
    assert_eq!(hit.subcommand, "doc");
    assert!(c.lookup(CommandGroup::Primary, 2).is_none());
    assert!(c.lookup(CommandGroup::Secondary, 99).is_none());
}

#[test]
fn find_default_is_run() {
    let c = default_catalog();
    let d = c.find_default().expect("default action");
    assert_eq!(d.subcommand, "run");
}

#[test]
fn toggle_without_extend_replaces() {
    let mut sel = vec![
        SelectedCommand { group: CommandGroup::Primary, index: 0 },
        SelectedCommand { group: CommandGroup::Secondary, index: 3 },
    ];
    let cand = SelectedCommand { group: CommandGroup::Secondary, index: 1 };
    toggle_selection(&mut sel, cand, false);
    assert_eq!(sel, vec![cand]);
}

#[test]
fn toggle_with_extend_appends_and_removes() {
    let a = SelectedCommand { group: CommandGroup::Primary, index: 0 };
    let b = SelectedCommand { group: CommandGroup::Secondary, index: 1 };
    let mut sel = vec![a];
    toggle_selection(&mut sel, b, true);
    assert_eq!(sel, vec![a, b]);
    toggle_selection(&mut sel, a, true);
    assert_eq!(sel, vec![b]);
}

#[test]
fn is_selected_reports_membership() {
    let a = SelectedCommand { group: CommandGroup::Primary, index: 1 };
    let sel = vec![a];
    assert!(is_selected(&sel, CommandGroup::Primary, 1));
    assert!(!is_selected(&sel, CommandGroup::Secondary, 1));
    assert!(!is_selected(&sel, CommandGroup::Primary, 0));
}

#[test]
fn selection_flags_mark_selected_rows_of_one_pane() {
    let sel = vec![
        SelectedCommand { group: CommandGroup::Secondary, index: 1 },
        SelectedCommand { group: CommandGroup::Primary, index: 0 },
        SelectedCommand { group: CommandGroup::Secondary, index: 4 },
    ];
    assert_eq!(selection_flags(&sel, CommandGroup::Secondary, 7), vec![
        false, true, false, false, true, false, false
    ]);
    assert_eq!(selection_flags(&sel, CommandGroup::Primary, 2), vec![true, false]);
}

#[test]
fn release_allowed_depends_on_every_resolved_entry() {
    let c = default_catalog();
    let build = SelectedCommand { group: CommandGroup::Primary, index: 0 };
    let fmt = SelectedCommand { group: CommandGroup::Secondary, index: 2 };
    let stale = SelectedCommand { group: CommandGroup::Secondary, index: 42 };
    assert!(release_allowed(&c, &vec![build]));
    assert!(!release_allowed(&c, &vec![build, fmt]));
    assert!(release_allowed(&c, &vec![build, stale]));
    assert!(release_allowed(&c, &vec![]));
}
