use tsuika::Drawable;
use tsuika::Field;
use tsuika::RecordItem;
use tsuika::Resources;
use tsuika::TextItem;
use tsuika::TsuikaEvent;
use tsuika::TsuikaMode;

fn item(text: &str) -> TextItem {
    TextItem::new(String::from(text))
}

fn field(name: &str, value: &str) -> Field {
    Field { name: String::from(name), value: String::from(value) }
}

#[test]
fn starts_empty_in_normal_mode() {
    let r = Resources::new();
    assert_eq!(r.len(), 0);
    assert_eq!(r.page(), 0);
    assert_eq!(r.cursor(), 0);
    assert_eq!(r.mode(), TsuikaMode::Normal);
    assert_eq!(r.draw(), "");
}

#[test]
fn default_matches_new() {
    let r = Resources::default();
    assert_eq!(r.len(), 0);
    assert_eq!(r.page(), 0);
    assert_eq!(r.cursor(), 0);
    assert_eq!(r.mode(), TsuikaMode::Normal);
    assert_eq!(TsuikaMode::default(), TsuikaMode::Normal);
    assert!(matches!(TsuikaEvent::default(), TsuikaEvent::Nothing));
}

#[test]
fn text_item_draws_its_content() {
    let a = item("c=69,d=2131283");
    assert_eq!(a.draw(), "c=69,d=2131283");
}

#[test]
fn render_concatenates_in_insertion_order() {
    let mut r = Resources::new();
    r.add(&item("first"));
    r.add(&item("second"));
    r.add(&item("third"));
    assert_eq!(r.draw(), "first\nsecond\nthird\n");
}

#[test]
fn render_is_deterministic() {
    let mut r = Resources::new();
    r.add(&item("c=69,d=2131283"));
    r.add(&item("a=114514"));
    let once = r.draw();
    let twice = r.draw();
    assert_eq!(once, twice);
    assert_eq!(once, "c=69,d=2131283\na=114514\n");
}

#[test]
fn scenario_two_items_down_rolldown_quit() {
    let mut r = Resources::new();
    r.add(&item("c=69,d=2131283"));
    r.add(&item("a=114514"));
    assert_eq!(r.page(), 0);
    assert_eq!(r.cursor(), 0);
    assert_eq!(r.mode(), TsuikaMode::Normal);

    assert!(!r.handle_event(TsuikaEvent::Down));
    assert_eq!(r.cursor(), 1);
    assert!(!r.handle_event(TsuikaEvent::RollDown));
    assert_eq!(r.page(), 1);
    let quit = r.handle_event(TsuikaEvent::Quit);
    assert!(quit);
    assert_eq!(r.mode(), TsuikaMode::Normal);
    assert_eq!(r.cursor(), 1);
    assert_eq!(r.page(), 1);
}

#[test]
fn empty_registry_render_step_is_safe() {
    let mut r = Resources::new();
    let visible = r.ui();
    assert_eq!(visible, "");
    assert_eq!(r.page(), 0);

    // Even after rolling down, the clamp floors the page at zero.
    r.handle_event(TsuikaEvent::RollDown);
    assert_eq!(r.page(), 1);
    let visible = r.ui();
    assert_eq!(visible, "");
    assert_eq!(r.page(), 0);
}

#[test]
fn clamp_leaves_valid_page_unchanged() {
    let mut r = Resources::new();
    r.add(&item("one"));
    r.add(&item("two"));
    r.add(&item("three"));
    r.handle_event(TsuikaEvent::RollDown);
    assert_eq!(r.page(), 1);
    let visible = r.ui();
    assert_eq!(r.page(), 1);
    assert_eq!(visible, "two\nthree");
    let again = r.ui();
    assert_eq!(r.page(), 1);
    assert_eq!(again, visible);
}

#[test]
fn page_past_content_is_clamped_to_last_line() {
    let mut r = Resources::new();
    r.add(&item("one"));
    r.add(&item("two"));
    for _ in 0..5 {
        r.handle_event(TsuikaEvent::RollDown);
    }
    assert_eq!(r.page(), 5);
    let visible = r.ui();
    assert_eq!(r.page(), 1);
    assert_eq!(visible, "two");
}

#[test]
fn multiline_items_page_by_line() {
    let mut r = Resources::new();
    r.add(&item("x\ny"));
    r.add(&item("z"));
    assert_eq!(r.draw(), "x\ny\nz\n");
    r.handle_event(TsuikaEvent::RollDown);
    let visible = r.ui();
    assert_eq!(r.page(), 1);
    assert_eq!(visible, "y\nz");
}

#[test]
fn cursor_stays_within_bounds() {
    let mut r = Resources::new();
    r.add(&item("a"));
    r.add(&item("b"));
    r.handle_event(TsuikaEvent::Up);
    assert_eq!(r.cursor(), 0);
    r.handle_event(TsuikaEvent::Down);
    r.handle_event(TsuikaEvent::Down);
    r.handle_event(TsuikaEvent::Down);
    assert_eq!(r.cursor(), 1);
    r.handle_event(TsuikaEvent::Up);
    assert_eq!(r.cursor(), 0);
}

#[test]
fn cursor_ignores_down_on_empty_registry() {
    let mut r = Resources::new();
    r.handle_event(TsuikaEvent::Down);
    assert_eq!(r.cursor(), 0);
    r.handle_event(TsuikaEvent::Up);
    assert_eq!(r.cursor(), 0);
}

#[test]
fn page_floor_is_zero() {
    let mut r = Resources::new();
    r.add(&item("a"));
    r.handle_event(TsuikaEvent::RollUp);
    assert_eq!(r.page(), 0);
    r.handle_event(TsuikaEvent::RollDown);
    r.handle_event(TsuikaEvent::RollUp);
    r.handle_event(TsuikaEvent::RollUp);
    assert_eq!(r.page(), 0);
}

#[test]
fn mode_round_trip_enter_then_quit() {
    let mut r = Resources::new();
    assert!(!r.handle_event(TsuikaEvent::Enter));
    assert_eq!(r.mode(), TsuikaMode::Edit);
    assert!(!r.handle_event(TsuikaEvent::Quit));
    assert_eq!(r.mode(), TsuikaMode::Normal);
    assert!(r.handle_event(TsuikaEvent::Quit));
}

#[test]
fn enter_in_edit_mode_is_a_no_op() {
    let mut r = Resources::new();
    r.handle_event(TsuikaEvent::Enter);
    assert!(!r.handle_event(TsuikaEvent::Enter));
    assert_eq!(r.mode(), TsuikaMode::Edit);
}

#[test]
fn nothing_changes_nothing() {
    let mut r = Resources::new();
    r.add(&item("a"));
    r.handle_event(TsuikaEvent::Down);
    r.handle_event(TsuikaEvent::RollDown);
    let (page, cursor, mode) = (r.page(), r.cursor(), r.mode());
    assert!(!r.handle_event(TsuikaEvent::Nothing));
    assert_eq!(r.page(), page);
    assert_eq!(r.cursor(), cursor);
    assert_eq!(r.mode(), mode);
}

#[test]
fn key_table_in_normal_mode() {
    let r = Resources::new();
    assert!(matches!(r.map_key(Some('q')), TsuikaEvent::Quit));
    assert!(matches!(r.map_key(Some('e')), TsuikaEvent::Enter));
    assert!(matches!(r.map_key(Some('w')), TsuikaEvent::RollUp));
    assert!(matches!(r.map_key(Some('s')), TsuikaEvent::RollDown));
    assert!(matches!(r.map_key(Some('x')), TsuikaEvent::Nothing));
    assert!(matches!(r.map_key(None), TsuikaEvent::Nothing));
}

#[test]
fn key_table_in_edit_mode() {
    let mut r = Resources::new();
    r.handle_event(TsuikaEvent::Enter);
    assert!(matches!(r.map_key(Some('q')), TsuikaEvent::Quit));
    assert!(matches!(r.map_key(Some('e')), TsuikaEvent::Enter));
    assert!(matches!(r.map_key(Some('w')), TsuikaEvent::Up));
    assert!(matches!(r.map_key(Some('s')), TsuikaEvent::Down));
    assert!(matches!(r.map_key(Some('x')), TsuikaEvent::Nothing));
    assert!(matches!(r.map_key(None), TsuikaEvent::Nothing));
}

#[test]
fn ui_keeps_items_cursor_and_mode() {
    let mut r = Resources::new();
    r.add(&item("a"));
    r.add(&item("b"));
    r.handle_event(TsuikaEvent::Enter);
    r.handle_event(TsuikaEvent::Down);
    let _ = r.ui();
    assert_eq!(r.len(), 2);
    assert_eq!(r.cursor(), 1);
    assert_eq!(r.mode(), TsuikaMode::Edit);
    assert_eq!(r.draw(), "a\nb\n");
}

#[test]
fn record_item_dumps_fields_in_declaration_order() {
    let bar = RecordItem::new(
        String::from("Bar"),
        vec![field("c", "69"), field("d", "2131283")],
    );
    assert_eq!(bar.draw(), "Bar {\n    c: 69,\n    d: 2131283,\n}");
}

#[test]
fn record_item_without_fields_is_an_empty_dump() {
    let unit = RecordItem::new(String::from("Unit"), vec![]);
    assert_eq!(unit.draw(), "Unit {\n}");
}

#[test]
fn heterogeneous_drawables_share_the_registry() {
    let mut r = Resources::new();
    let bar = RecordItem::new(String::from("Bar"), vec![field("c", "69")]);
    r.add(&bar);
    r.add(&item("plain"));
    assert_eq!(r.draw(), "Bar {\n    c: 69,\n}\nplain\n");

    // The record contributes three rendered lines; page past the first.
    r.handle_event(TsuikaEvent::RollDown);
    r.handle_event(TsuikaEvent::RollDown);
    let visible = r.ui();
    assert_eq!(r.page(), 2);
    assert_eq!(visible, "}\nplain");
}
