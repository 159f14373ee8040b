use std::path::PathBuf;
use zlaunch::desktop::{
    add_scanned, applications_dir, contains_id, get_xdg_application_dirs, load_applications,
    resolve_all_icon_paths, scan_applications, sort_by_name, split_search_path, DesktopEntry,
};
use zlaunch::emoji::{all_emojis, rank, search_emojis, search_in, EmojiItem};
use zlaunch::search::{find_provider_by_trigger, get_providers, PhosphorIcon, SearchProvider};
use zlaunch::state::{AppState, ApplicationItem, ListItem, ViewContext};

fn entry(id: &str, icon: Option<&str>, icon_path: Option<&str>) -> DesktopEntry {
    DesktopEntry::new(
        id.to_string(),
        id.to_uppercase(),
        format!("/usr/bin/{}", id),
        icon.map(|s| s.to_string()),
        icon_path.map(PathBuf::from),
        None,
        vec!["Utility".to_string()],
        false,
        PathBuf::from(format!("/usr/share/applications/{}.desktop", id)),
    )
}

#[test]
fn desktop_entry_keeps_its_fields() {
    let e = entry("kate", Some("kate"), None);
    assert_eq!(e.id, "kate");
    assert_eq!(e.name, "KATE");
    assert_eq!(e.command, "/usr/bin/kate");
    assert_eq!(e.icon.as_deref(), Some("kate"));
    assert!(e.icon_path.is_none());
    assert!(e.comment.is_none());
    assert_eq!(e.categories, vec!["Utility".to_string()]);
    assert!(!e.terminal);
    assert_eq!(e.path, PathBuf::from("/usr/share/applications/kate.desktop"));
    assert_eq!(e.wanted_icon().map(|s| s.as_str()), Some("kate"));
}

#[test]
fn icon_paths_are_resolved_where_missing() {
    let mut entries = vec![
        entry("a", Some("a"), None),
        entry("b", Some("b"), Some("/icons/old-b.png")),
        entry("c", None, None),
        entry("d", Some("d"), None),
    ];
    let found = vec![
        Some(PathBuf::from("/icons/a.png")),
        Some(PathBuf::from("/icons/b.png")),
        Some(PathBuf::from("/icons/c.png")),
        None,
    ];
    resolve_all_icon_paths(&mut entries, &found);
    assert_eq!(entries[0].icon_path, Some(PathBuf::from("/icons/a.png")));
    assert_eq!(entries[1].icon_path, Some(PathBuf::from("/icons/old-b.png")));
    assert_eq!(entries[2].icon_path, None);
    assert_eq!(entries[3].icon_path, None);
    assert_eq!(entries[0].id, "a");
    assert!(entries[1].wanted_icon().is_none());
    assert!(entries[2].wanted_icon().is_none());

    let mut short = vec![entry("a", Some("a"), None), entry("b", Some("b"), None)];
    resolve_all_icon_paths(&mut short, &vec![Some(PathBuf::from("/icons/a.png"))]);
    assert_eq!(short[0].icon_path, Some(PathBuf::from("/icons/a.png")));
    assert_eq!(short[1].icon_path, None);

    let loaded = load_applications(vec![entry("x", Some("x"), None)], &vec![Some(PathBuf::from("/i/x.svg"))]);
    assert_eq!(loaded.len(), 1);
    assert_eq!(loaded[0].icon_path, Some(PathBuf::from("/i/x.svg")));
}

#[test]
fn emoji_item_keeps_its_fields() {
    let e = EmojiItem::new("🚀".to_string(), "rocket".to_string());
    assert_eq!(e.emoji, "🚀");
    assert_eq!(e.name, "rocket");
}

#[test]
fn ranking_is_by_score_then_position() {
    assert_eq!(rank(&vec![Some(1), None, Some(5), Some(1), Some(-3), None, Some(5)]), vec![2, 6, 0, 3, 4]);
    assert_eq!(rank(&vec![]), Vec::<usize>::new());
    assert_eq!(rank(&vec![None, None]), Vec::<usize>::new());
    assert_eq!(rank(&vec![Some(i64::MIN), Some(i64::MAX)]), vec![1, 0]);
}

#[test]
fn emoji_search_ranks_matches() {
    let items = vec![
        EmojiItem::new("🚗".to_string(), "automobile".to_string()),
        EmojiItem::new("🚀".to_string(), "rocket".to_string()),
        EmojiItem::new("🎸".to_string(), "guitar".to_string()),
        EmojiItem::new("🪨".to_string(), "rock".to_string()),
    ];
    assert_eq!(search_in(&items, ""), vec![0, 1, 2, 3]);
    let hits = search_in(&items, "rock");
    assert_eq!(hits.len(), 2);
    assert!(hits.contains(&1) && hits.contains(&3));
    assert_eq!(search_in(&items, "guitar"), vec![2]);
    assert!(search_in(&items, "zzzz").is_empty());
    assert!(search_in(&Vec::new(), "a").is_empty());
}

#[test]
fn emoji_table_is_searched() {
    let all = all_emojis();
    assert!(all.len() > 1000);
    assert_eq!(all[0].emoji, "😀");
    assert_eq!(search_emojis("").len(), all.len());
    let hits = search_emojis("rocket");
    assert!(!hits.is_empty());
    assert!(hits.iter().all(|&i| i < all.len()));
    assert!(hits.iter().any(|&i| all[i].name == "rocket"));
}

#[test]
fn providers_are_the_four_known() {
    let ps = get_providers();
    assert_eq!(ps.len(), 4);
    assert_eq!(
        ps[0],
        SearchProvider {
            name: "Google",
            trigger: "!g",
            url_template: "https://www.google.com/search?q={query}",
            icon: PhosphorIcon::MagnifyingGlass,
        }
    );
    assert_eq!(ps[1].name, "DuckDuckGo");
    assert_eq!(ps[1].trigger, "!d");
    assert_eq!(ps[1].url_template, "https://duckduckgo.com/?q={query}");
    assert_eq!(ps[1].icon, PhosphorIcon::Globe);
    assert_eq!(ps[2].name, "Wikipedia");
    assert_eq!(ps[2].trigger, "!wiki");
    assert_eq!(ps[2].url_template, "https://en.wikipedia.org/wiki/Special:Search?search={query}");
    assert_eq!(ps[2].icon, PhosphorIcon::BookOpen);
    assert_eq!(ps[3].name, "YouTube");
    assert_eq!(ps[3].trigger, "!yt");
    assert_eq!(ps[3].url_template, "https://www.youtube.com/results?search_query={query}");
    assert_eq!(ps[3].icon, PhosphorIcon::YoutubeLogo);
}

#[test]
fn provider_is_found_by_exact_trigger() {
    assert_eq!(find_provider_by_trigger("!g").unwrap().name, "Google");
    assert_eq!(find_provider_by_trigger("!d").unwrap().name, "DuckDuckGo");
    assert_eq!(find_provider_by_trigger("!wiki").unwrap().name, "Wikipedia");
    assert_eq!(find_provider_by_trigger("!yt").unwrap().name, "YouTube");
    assert!(find_provider_by_trigger("!G").is_none());
    assert!(find_provider_by_trigger("!").is_none());
    assert!(find_provider_by_trigger("").is_none());
    assert!(find_provider_by_trigger("!wikipedia").is_none());
}

#[test]
fn url_holds_the_encoded_query() {
    let g = find_provider_by_trigger("!g").unwrap();
    assert_eq!(g.build_url("rust"), "https://www.google.com/search?q=rust");
    assert_eq!(g.build_url("hello world"), "https://www.google.com/search?q=hello%20world");
    assert_eq!(g.build_url("a&b=c/d?~-_."), "https://www.google.com/search?q=a%26b%3Dc%2Fd%3F~-_.");
    assert_eq!(g.build_url("é"), "https://www.google.com/search?q=%C3%A9");
    assert_eq!(g.build_url(""), "https://www.google.com/search?q=");
    let twice = SearchProvider {
        name: "Twice",
        trigger: "!t",
        url_template: "{query}/{query}",
        icon: PhosphorIcon::Globe,
    };
    assert_eq!(twice.build_url("{query}"), "%7Bquery%7D/%7Bquery%7D");
}

fn app(id: &str) -> ApplicationItem {
    ApplicationItem {
        id: id.to_string(),
        name: id.to_uppercase(),
        command: format!("/usr/bin/{}", id),
        description: None,
        terminal: false,
    }
}

#[test]
fn new_view_shows_everything() {
    let v = ViewContext::new("Apps".to_string(), vec![ListItem::Application(app("a")), ListItem::Application(app("b"))]);
    assert_eq!(v.title, "Apps");
    assert_eq!(v.items.len(), 2);
    assert_eq!(v.filtered_indices, vec![0, 1]);
    assert_eq!(v.query, "");
    assert_eq!(v.selected_index, Some(0));
    let empty = ViewContext::new("None".to_string(), Vec::new());
    assert!(empty.filtered_indices.is_empty());
    assert_eq!(empty.selected_index, None);
}

#[test]
fn reset_restores_the_initial_view() {
    let mut v = ViewContext::new("Apps".to_string(), vec![ListItem::Application(app("a")), ListItem::Application(app("b")), ListItem::Application(app("c"))]);
    v.filtered_indices = vec![2];
    v.query = "c".to_string();
    v.selected_index = Some(2);
    v.reset();
    assert_eq!(v.title, "Apps");
    assert_eq!(v.items.len(), 3);
    assert_eq!(v.filtered_indices, vec![0, 1, 2]);
    assert_eq!(v.query, "");
    assert_eq!(v.selected_index, Some(0));
    let mut empty = ViewContext::new("None".to_string(), Vec::new());
    empty.selected_index = Some(5);
    empty.reset();
    assert_eq!(empty.selected_index, None);
}

#[test]
fn view_stack_is_a_stack() {
    let mut s: AppState<u8, u16> = AppState::new(vec![app("a"), app("b")], Some(7));
    assert_eq!(s.applications.len(), 2);
    assert_eq!(s.ipc_server, Some(7));
    assert!(s.window_handle.is_none());
    assert!(!s.window_visible);
    assert!(!s.in_submenu());
    assert!(s.current_view().is_none());
    assert!(s.current_view_mut().is_none());
    assert!(s.pop_view().is_none());

    let items = s.main_view_items();
    assert_eq!(items.len(), 2);
    match &items[1] {
        ListItem::Application(a) => {
            assert_eq!(a.id, "b");
            assert_eq!(a.name, "B");
            assert_eq!(a.command, "/usr/bin/b");
        }
        _ => panic!("not an application"),
    }

    s.push_view(ViewContext::new("one".to_string(), Vec::new()));
    s.push_view(ViewContext::new("two".to_string(), items));
    assert!(s.in_submenu());
    assert_eq!(s.current_view().unwrap().title, "two");
    s.current_view_mut().unwrap().query = "q".to_string();
    assert_eq!(s.current_view().unwrap().query, "q");
    assert_eq!(s.view_stack[0].query, "");
    let top = s.pop_view().unwrap();
    assert_eq!(top.title, "two");
    assert_eq!(top.query, "q");
    assert_eq!(s.current_view().unwrap().title, "one");
    assert_eq!(s.pop_view().unwrap().title, "one");
    assert!(!s.in_submenu());
}

#[test]
fn search_path_is_split_at_colons() {
    let parts: Vec<String> = split_search_path("/a:/b/c::d:").into_iter().map(|p| p.into_iter().collect()).collect();
    assert_eq!(parts, vec!["/a", "/b/c", "", "d", ""]);
    let one: Vec<String> = split_search_path("").into_iter().map(|p| p.into_iter().collect()).collect();
    assert_eq!(one, vec![""]);
}

#[test]
fn application_dirs_follow_the_search_path() {
    assert_eq!(
        get_xdg_application_dirs(Some("/home/u/.local/share"), Some("/usr/local/share:/usr/share/")),
        vec!["/home/u/.local/share/applications", "/usr/local/share/applications", "/usr/share/applications"]
    );
    assert_eq!(
        get_xdg_application_dirs(None, None),
        vec!["/usr/local/share/applications", "/usr/share/applications"]
    );
    assert_eq!(
        get_xdg_application_dirs(Some("/d"), None),
        vec!["/d/applications", "/usr/local/share/applications", "/usr/share/applications"]
    );
    assert_eq!(get_xdg_application_dirs(None, Some("")), vec!["applications"]);
    assert_eq!(get_xdg_application_dirs(None, Some("/")), vec!["/applications"]);
    for dir in ["", "/", "/usr/share", "/usr/share/", "rel"] {
        let chars: Vec<char> = dir.chars().collect();
        assert_eq!(PathBuf::from(applications_dir(&chars)), PathBuf::from(dir).join("applications"));
    }
}

fn named(id: &str, name: &str) -> DesktopEntry {
    DesktopEntry::new(
        id.to_string(),
        name.to_string(),
        String::new(),
        None,
        None,
        None,
        Vec::new(),
        false,
        PathBuf::from(id),
    )
}

#[test]
fn first_entry_with_an_id_stays() {
    let mut entries = Vec::new();
    add_scanned(&mut entries, named("a", "First"));
    add_scanned(&mut entries, named("b", "Second"));
    add_scanned(&mut entries, named("a", "Third"));
    assert_eq!(entries.len(), 2);
    assert_eq!(entries[0].name, "First");
    assert_eq!(entries[1].name, "Second");
    assert!(contains_id(&entries, "a"));
    assert!(!contains_id(&entries, "c"));
}

#[test]
fn scan_result_is_sorted_by_lower_case_name() {
    let found = vec![
        named("1", "zsh"),
        named("2", "Kate"),
        named("3", "ark"),
        named("2", "Shadowed"),
        named("4", "Élan"),
        named("5", "Zed"),
        named("6", "kate2"),
    ];
    let out = scan_applications(found);
    let names: Vec<&str> = out.iter().map(|e| e.name.as_str()).collect();
    assert_eq!(names, vec!["ark", "Kate", "kate2", "Zed", "zsh", "Élan"]);
    assert!(scan_applications(Vec::new()).is_empty());
    let mut v = vec![named("1", "b"), named("2", "B"), named("3", "a")];
    sort_by_name(&mut v);
    let ids: Vec<&str> = v.iter().map(|e| e.id.as_str()).collect();
    assert_eq!(ids, vec!["3", "1", "2"]);
}

#[test]
fn table_search_is_the_search_in_the_table() {
    let all = all_emojis();
    let again = all_emojis();
    assert_eq!(all.len(), again.len());
    for i in [0, 1, all.len() / 2, all.len() - 1] {
        assert_eq!(all[i].emoji, again[i].emoji);
        assert_eq!(all[i].name, again[i].name);
        assert!(!all[i].emoji.is_empty());
    }
    assert_eq!(all[0].name, "grinning face");
    for query in ["", "rocket", "smile", "Flag", "zzzzqq"] {
        assert_eq!(search_emojis(query), search_in(&all, query));
    }
    assert_eq!(search_emojis(""), (0..all.len()).collect::<Vec<usize>>());
    assert!(search_emojis("zzzzqq").is_empty());
}
