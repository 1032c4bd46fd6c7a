use dictation::config::{Anchor, IndicatorConfig};
use dictation::indicator::{
    pill_view, placement, relevant_change, replace_all, stylesheet, tick, view_code, ChangeKind,
    Placement,
};
use dictation::session::SessionState;

#[test]
fn pill_follows_the_session() {
    let off = pill_view(SessionState::Off);
    assert!(!off.visible);
    assert!(off.label.is_none() && off.tooltip.is_none());
    let on = pill_view(SessionState::Listening);
    assert!(on.visible && on.pulsing && !on.spinning);
    assert_eq!(on.label, Some("Listening..."));
    assert_eq!(on.icon, Some("listening"));
    assert_eq!(on.tooltip, Some("Microphone is on. Click to stop dictation."));
    let tail = pill_view(SessionState::Dictating);
    assert!(tail.visible && tail.spinning && !tail.pulsing);
    assert_eq!(tail.label, Some("Dictating..."));
    assert_eq!(
        tail.tooltip,
        Some("Microphone is off. Finishing the final transcription.")
    );
    assert_eq!(
        (
            view_code(SessionState::Off),
            view_code(SessionState::Listening),
            view_code(SessionState::Dictating)
        ),
        (0, 1, 2)
    );
}

#[test]
fn centered_pills_are_pushed_in_by_their_margin() {
    let mut ind = IndicatorConfig::defaults_in("/c");
    assert_eq!(
        placement(&ind, 1920),
        Placement {
            right: false,
            horizontal_margin: 875,
            top: false,
            vertical_margin: 24
        }
    );
    assert_eq!(placement(&ind, 100).horizontal_margin, 0);
    ind.anchor = Anchor::TopRight;
    assert_eq!(
        placement(&ind, 1920),
        Placement {
            right: true,
            horizontal_margin: 24,
            top: true,
            vertical_margin: 24
        }
    );
}

#[test]
fn stylesheet_placeholders_are_filled() {
    assert_eq!(replace_all("a@BG@b@BG@", "@BG@", "#000"), "a#000b#000");
    assert_eq!(replace_all("aaa", "aa", "b"), "ba");
    let ind = IndicatorConfig::defaults_in("/c");
    assert_eq!(
        stylesheet(".pill{background:@BG@;color:@TEXT@;font-family:\"@FONT@\"} .mic{color:@ACCENT@}", &ind),
        ".pill{background:#1e1e2e;color:#cdd6f4;font-family:\"JetBrainsMono Nerd Font\"} .mic{color:#89b4fa}"
    );
}

#[test]
fn watcher_refreshes_on_marker_changes_and_every_third_tick() {
    let paths = vec!["/c//dictation-active".to_string()];
    assert!(relevant_change(ChangeKind::Modify, &paths, "/c/dictation-active", "/c/d.pid"));
    assert!(!relevant_change(ChangeKind::Access, &paths, "/c/dictation-active", "/c/d.pid"));
    let other = vec!["/c/other".to_string(), "/c/d.pid".to_string()];
    assert!(relevant_change(ChangeKind::Remove, &other, "/c/dictation-active", "/c/d.pid"));
    assert!(!relevant_change(ChangeKind::Create, &vec!["/c/x".to_string()], "/c/a", "/c/b"));
    assert_eq!(tick(0, false), (1, false));
    assert_eq!(tick(0, true), (1, true));
    assert_eq!(tick(2, false), (3, true));
}
