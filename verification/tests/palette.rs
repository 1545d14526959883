use hackertuah::palette::{command_matches, CommandKind, CommandPalette};

fn names(palette: &CommandPalette) -> Vec<String> {
    palette
        .filtered_commands()
        .iter()
        .map(|&i| palette.commands()[i].name.clone())
        .collect()
}

#[test]
fn palette_catalogue() {
    let palette = CommandPalette::new();
    let expected = [
        (CommandKind::OpenInBrowser, "Open in Browser", "Open the selected story in your default browser"),
        (CommandKind::OpenComments, "Open Comments", "Open the comments for the selected story"),
        (CommandKind::Summarize, "Summarize", "Get an AI summary of the selected story"),
        (CommandKind::Search, "Search", "Filter stories by text"),
        (CommandKind::SwitchToTop, "Switch to Top", "Switch to Top stories section"),
        (CommandKind::SwitchToAsk, "Switch to Ask", "Switch to Ask HN section"),
        (CommandKind::SwitchToShow, "Switch to Show", "Switch to Show HN section"),
        (CommandKind::SwitchToJobs, "Switch to Jobs", "Switch to Jobs section"),
        (CommandKind::Refresh, "Refresh", "Refresh the current section"),
        (CommandKind::RefreshAll, "Refresh All", "Refresh all sections"),
        (CommandKind::Quit, "Quit", "Exit the application"),
    ];
    assert_eq!(palette.commands().len(), expected.len());
    for (c, (kind, name, description)) in palette.commands().iter().zip(expected.iter()) {
        assert_eq!(c.kind, *kind);
        assert_eq!(c.name, *name);
        assert_eq!(c.description, *description);
    }
    assert!(palette.filtered_commands().is_empty());
    assert_eq!(palette.search_query(), "");
    assert_eq!(palette.selected_index(), 0);
    assert!(palette.get_selected_command().is_none());
}

#[test]
fn filter_commands_with_empty_query_lists_all() {
    let mut palette = CommandPalette::new();
    palette.filter_commands();
    assert_eq!(palette.filtered_commands(), &(0..11).collect::<Vec<usize>>());
    assert_eq!(palette.selected_index(), 0);
    assert_eq!(palette.get_selected_command().unwrap().name, "Open in Browser");
}

#[test]
fn filter_commands_matches_names_and_descriptions_without_case() {
    let mut palette = CommandPalette::new();
    for c in "REFRESH".chars() {
        palette.type_char(c);
    }
    assert_eq!(palette.search_query(), "REFRESH");
    assert_eq!(names(&palette), vec!["Refresh", "Refresh All"]);
    let mut palette = CommandPalette::new();
    for c in "browser".chars() {
        palette.type_char(c);
    }
    assert_eq!(names(&palette), vec!["Open in Browser"]);
    let mut palette = CommandPalette::new();
    for c in "hn".chars() {
        palette.type_char(c);
    }
    assert_eq!(names(&palette), vec!["Switch to Ask", "Switch to Show"]);
    let mut palette = CommandPalette::new();
    for c in "Story".chars() {
        palette.type_char(c);
    }
    assert_eq!(names(&palette), vec!["Open in Browser", "Open Comments", "Summarize"]);
    let mut palette = CommandPalette::new();
    for c in "xyzzy".chars() {
        palette.type_char(c);
    }
    assert!(palette.filtered_commands().is_empty());
    assert!(palette.get_selected_command().is_none());
}

#[test]
fn typing_and_erasing_filter_again_and_reset_the_highlight() {
    let mut palette = CommandPalette::new();
    palette.filter_commands();
    palette.next_command();
    palette.next_command();
    assert_eq!(palette.selected_index(), 2);
    palette.type_char('q');
    assert_eq!(palette.search_query(), "q");
    assert_eq!(names(&palette), vec!["Quit"]);
    assert_eq!(palette.selected_index(), 0);
    palette.type_char('q');
    assert!(palette.filtered_commands().is_empty());
    palette.erase_char();
    assert_eq!(palette.search_query(), "q");
    assert_eq!(names(&palette), vec!["Quit"]);
    palette.erase_char();
    assert_eq!(palette.search_query(), "");
    assert_eq!(palette.filtered_commands().len(), 11);
    palette.erase_char();
    assert_eq!(palette.search_query(), "");
    assert_eq!(palette.filtered_commands().len(), 11);
}

#[test]
fn clear_query_keeps_the_listing() {
    let mut palette = CommandPalette::new();
    palette.type_char('q');
    assert_eq!(names(&palette), vec!["Quit"]);
    palette.clear_query();
    assert_eq!(palette.search_query(), "");
    assert_eq!(names(&palette), vec!["Quit"]);
    palette.filter_commands();
    assert_eq!(palette.filtered_commands().len(), 11);
}

#[test]
fn next_command_wraps_to_the_first() {
    let mut palette = CommandPalette::new();
    for c in "switch".chars() {
        palette.type_char(c);
    }
    assert_eq!(palette.filtered_commands(), &vec![4, 5, 6, 7]);
    palette.next_command();
    assert_eq!(palette.selected_index(), 1);
    assert_eq!(palette.get_selected_command().unwrap().kind, CommandKind::SwitchToAsk);
    palette.next_command();
    palette.next_command();
    assert_eq!(palette.selected_index(), 3);
    assert_eq!(palette.get_selected_command().unwrap().name, "Switch to Jobs");
    palette.next_command();
    assert_eq!(palette.selected_index(), 0);
}

#[test]
fn previous_command_wraps_to_the_last() {
    let mut palette = CommandPalette::new();
    for c in "switch".chars() {
        palette.type_char(c);
    }
    palette.previous_command();
    assert_eq!(palette.selected_index(), 3);
    palette.previous_command();
    assert_eq!(palette.selected_index(), 2);
    assert_eq!(palette.get_selected_command().unwrap().kind, CommandKind::SwitchToShow);
}

#[test]
fn moving_in_an_empty_listing_changes_nothing() {
    let mut palette = CommandPalette::new();
    palette.next_command();
    assert_eq!(palette.selected_index(), 0);
    palette.previous_command();
    assert_eq!(palette.selected_index(), 0);
    assert!(palette.get_selected_command().is_none());
}

#[test]
fn command_match_looks_at_both_texts() {
    assert!(command_matches("refresh", "refresh the current section", "fresh"));
    assert!(command_matches("quit", "exit the application", "exit"));
    assert!(command_matches("quit", "exit the application", "qu"));
    assert!(!command_matches("quit", "exit the application", "quit the"));
    assert!(command_matches("quit", "exit", ""));
}
