use layer_browser::action::Action;
use layer_browser::app::App;
use layer_browser::app::Directive;
use layer_browser::app::Event;
use layer_browser::components::Panel;
use layer_browser::data::extent::Extent;
use layer_browser::data::fields::Fields;
use layer_browser::data::srs::Srs;
use layer_browser::data::LayerInfo;
use layer_browser::key::Key;
use layer_browser::key::KeyCode;
use layer_browser::keymap::Binding;
use layer_browser::keymap::Keymap;
use layer_browser::keymap::Mode;

fn layer(tag: i64, name: &str) -> LayerInfo {
    LayerInfo {
        name: name.to_string(),
        extent: Extent {
            xmin: 10 * tag,
            ymin: 20 * tag,
            xmax: 30 * tag,
            ymax: 40 * tag,
        },
        srs: Srs {
            name: format!("srs-{name}"),
            wkt: format!("WKT[\n  {name}\n]"),
            proj4: format!("+proj={name}"),
        },
        fields: Fields {
            geom_field: vec![format!("geom-{name}")],
            fields: vec![(format!("attr-{name}"), tag as u32)],
        },
        feature_number: tag as u64,
    }
}

fn four_layers() -> Vec<LayerInfo> {
    vec![
        layer(1, "alpha"),
        layer(2, "beta"),
        layer(3, "gamma"),
        layer(4, "delta"),
    ]
}

fn key(c: char) -> Key {
    Key::plain(KeyCode::Char(c))
}

fn bind(mode: Mode, keys: Vec<Key>, action: Action) -> Binding {
    Binding { mode, keys, action }
}

fn selected_index(app: &App) -> usize {
    match &app.components.children[0] {
        Panel::Layers(l) => l.layer_idx(),
        _ => panic!("first panel is the layer list"),
    }
}

fn extent_panel(app: &App) -> layer_browser::components::extent::Extent {
    match &app.components.children[2] {
        Panel::Extent(e) => *e,
        _ => panic!("third panel is the extent panel"),
    }
}

fn srs_panel(app: &App) -> layer_browser::components::srs::Srs {
    match &app.components.children[1] {
        Panel::Srs(s) => s.clone(),
        _ => panic!("second panel is the srs panel"),
    }
}

fn fields_panel(app: &App) -> layer_browser::components::fields::Fields {
    match &app.components.children[3] {
        Panel::Fields(f) => f.clone(),
        _ => panic!("fourth panel is the fields panel"),
    }
}

fn press(app: &mut App, c: char) -> Vec<Directive> {
    app.process_event(&Event::Key(key(c)));
    app.drain()
}

#[test]
fn focus_ring_closes_after_component_count_steps() {
    let mut app = App::new(four_layers(), Keymap::new(vec![]));
    let n = app.components.len();
    assert_eq!(n, 4);
    assert_eq!(app.components.focused_index(), 0);
    let mut seen = Vec::new();
    for _ in 0..n {
        app.components.focus_next();
        seen.push(app.components.focused_index());
    }
    assert_eq!(seen, vec![1, 2, 3, 0]);
    assert_eq!(app.components.focused_index(), 0);
    assert!(app.components.children[0].is_focused());
}

#[test]
fn focus_previous_wraps_to_last() {
    let mut app = App::new(four_layers(), Keymap::new(vec![]));
    app.components.focus_previous();
    assert_eq!(app.components.focused_index(), 3);
    assert!(app.components.children[3].is_focused());
    assert!(!app.components.children[0].is_focused());
    app.components.focus_first();
    assert_eq!(app.components.focused_index(), 0);
    app.components.focus_last();
    assert_eq!(app.components.focused_index(), 3);
}

#[test]
fn tab_and_backtab_move_the_focus() {
    let mut app = App::new(four_layers(), Keymap::new(vec![]));
    app.process_event(&Event::Key(Key::plain(KeyCode::Tab)));
    app.drain();
    assert_eq!(app.components.focused_index(), 1);
    app.process_event(&Event::Key(Key::plain(KeyCode::BackTab)));
    app.drain();
    assert_eq!(app.components.focused_index(), 0);
    app.process_event(&Event::Key(Key::plain(KeyCode::BackTab)));
    app.drain();
    assert_eq!(app.components.focused_index(), 3);
}

#[test]
fn tick_clears_pending_keys() {
    let keymap = Keymap::new(vec![bind(
        Mode::LayerList,
        vec![key('g'), key('g')],
        Action::Quit,
    )]);
    let mut app = App::new(four_layers(), keymap);
    press(&mut app, 'g');
    assert_eq!(app.last_tick_key_events, vec![key('g')]);
    app.process_event(&Event::Tick);
    app.drain();
    assert!(app.last_tick_key_events.is_empty());
    assert!(!app.should_quit);
}

#[test]
fn bound_single_key_resolves_immediately() {
    let keymap = Keymap::new(vec![bind(Mode::LayerList, vec![key('q')], Action::Quit)]);
    let mut app = App::new(four_layers(), keymap);
    press(&mut app, 'q');
    assert!(app.should_quit);
    assert!(app.last_tick_key_events.is_empty());
}

#[test]
fn single_key_wins_over_chord_prefix() {
    let keymap = Keymap::new(vec![
        bind(Mode::LayerList, vec![key('q')], Action::DownLayer),
        bind(Mode::LayerList, vec![key('q'), key('q')], Action::Quit),
    ]);
    let mut app = App::new(four_layers(), keymap);
    press(&mut app, 'q');
    press(&mut app, 'q');
    assert_eq!(selected_index(&app), 2);
    assert!(!app.should_quit);
    assert!(app.last_tick_key_events.is_empty());
}

#[test]
fn two_key_chord_resolves_without_tick_between() {
    let keymap = Keymap::new(vec![bind(
        Mode::LayerList,
        vec![key('g'), key('g')],
        Action::Quit,
    )]);
    let mut app = App::new(four_layers(), keymap);
    press(&mut app, 'g');
    assert!(!app.should_quit);
    press(&mut app, 'g');
    assert!(app.should_quit);
}

#[test]
fn pass_layerinfo_updates_extent_srs_and_fields_panels() {
    let delivered = layer(9, "omega");
    let keymap = Keymap::new(vec![bind(
        Mode::LayerList,
        vec![key('p')],
        Action::PassLayerInfo(delivered.clone()),
    )]);
    let mut app = App::new(four_layers(), keymap);
    let srs_before = srs_panel(&app);
    press(&mut app, 'p');
    let e = extent_panel(&app);
    assert_eq!(
        (e.xmin, e.xmax, e.ymin, e.ymax),
        (
            delivered.extent.xmin,
            delivered.extent.xmax,
            delivered.extent.ymin,
            delivered.extent.ymax
        )
    );
    assert!(!e.focus);
    let s = srs_panel(&app);
    assert_eq!(s.name, delivered.srs.name);
    assert_eq!(s.wkt, delivered.srs.wkt);
    assert_eq!(s.proj4, delivered.srs.proj4);
    assert_eq!(s.is_focused, srs_before.is_focused);
    assert_eq!(s.state, srs_before.state);
    let f = fields_panel(&app);
    assert_eq!(f.geom_field, delivered.fields.geom_field);
    assert_eq!(f.fields, delivered.fields.fields);
    assert!(!f.is_focused);
    assert_eq!(selected_index(&app), 0);
}

#[test]
fn resize_then_render_redraws_and_reports_the_new_size() {
    let mut app = App::new(four_layers(), Keymap::new(vec![]));
    app.process_event(&Event::Resize(80, 24));
    let first = app.drain();
    assert_eq!(
        first,
        vec![Directive::ResizeSurface(80, 24), Directive::Redraw]
    );
    app.process_event(&Event::Render);
    let second = app.drain();
    assert_eq!(second, vec![Directive::Redraw]);
    assert_eq!((app.surface_width, app.surface_height), (80, 24));
}

#[test]
fn selection_cycles_through_four_layers_and_delivers_each() {
    let keymap = Keymap::new(vec![bind(
        Mode::LayerList,
        vec![key('j')],
        Action::DownLayer,
    )]);
    let layers = four_layers();
    let mut app = App::new(layers.clone(), keymap);
    assert_eq!(selected_index(&app), 0);
    for (step, expected) in [(1usize, 1usize), (2, 2), (3, 3)] {
        press(&mut app, 'j');
        assert_eq!(selected_index(&app), expected, "after step {step}");
        let e = extent_panel(&app);
        assert_eq!(e.xmin, layers[expected].extent.xmin);
        assert_eq!(srs_panel(&app).name, layers[expected].srs.name);
    }
    press(&mut app, 'j');
    assert_eq!(selected_index(&app), 0);
    assert_eq!(extent_panel(&app).xmin, layers[0].extent.xmin);
    assert_eq!(srs_panel(&app).name, layers[0].srs.name);
}

#[test]
fn up_layer_wraps_backwards_and_delivers() {
    let keymap = Keymap::new(vec![bind(Mode::LayerList, vec![key('k')], Action::UpLayer)]);
    let layers = four_layers();
    let mut app = App::new(layers.clone(), keymap);
    press(&mut app, 'k');
    assert_eq!(selected_index(&app), 3);
    assert_eq!(extent_panel(&app).ymax, layers[3].extent.ymax);
}

#[test]
fn suspend_resume_round_trip_preserves_mode_and_panels() {
    let keymap = Keymap::new(vec![
        bind(Mode::LayerList, vec![key('j')], Action::DownLayer),
        bind(Mode::LayerList, vec![key('g'), key('h')], Action::Help),
    ]);
    let mut app = App::new(four_layers(), keymap);
    press(&mut app, 'j');
    press(&mut app, 'g');
    let panels_before = app.components.children.clone();
    let mode_before = app.mode;
    let pending_before = app.last_tick_key_events.clone();
    let focus_before = app.components.focused_index();

    app.process_event(&Event::Suspend);
    app.drain();
    assert!(app.should_suspend);
    app.begin_resume();
    app.drain();
    assert!(!app.should_suspend);

    assert_eq!(app.components.children, panels_before);
    assert_eq!(app.mode, mode_before);
    assert_eq!(app.last_tick_key_events, pending_before);
    assert_eq!(app.components.focused_index(), focus_before);
    assert!(!app.should_quit);
}

#[test]
fn quit_event_stops_the_loop() {
    let mut app = App::new(four_layers(), Keymap::new(vec![]));
    app.process_event(&Event::Quit);
    app.drain();
    assert!(app.should_quit);
}

#[test]
fn queued_actions_apply_in_send_order() {
    let keymap = Keymap::new(vec![
        bind(Mode::LayerList, vec![key('s')], Action::EnterSrs),
        bind(Mode::LayerList, vec![key('e')], Action::EnterExtent),
    ]);
    let mut app = App::new(four_layers(), keymap);
    app.process_event(&Event::Key(key('s')));
    app.process_event(&Event::Key(key('e')));
    let first = app.dispatch_next().expect("two actions are queued");
    assert!(first.is_empty());
    assert_eq!(app.mode, Mode::Srs);
    let second = app.dispatch_next().expect("one action is left");
    assert!(second.is_empty());
    assert_eq!(app.mode, Mode::Extent);
    assert!(app.dispatch_next().is_none());
}

#[test]
fn draw_errors_become_actions_and_do_not_stop_the_loop() {
    let mut app = App::new(four_layers(), Keymap::new(vec![]));
    let panels_before = app.components.children.clone();
    app.report_draw_error("panel failed to draw".to_string());
    let directives = app.drain();
    assert!(directives.is_empty());
    assert!(!app.should_quit);
    assert_eq!(app.components.children, panels_before);
}

#[test]
fn scroll_actions_move_the_srs_viewport_and_saturate() {
    let keymap = Keymap::new(vec![
        bind(Mode::LayerList, vec![key('d')], Action::ScrollDown),
        bind(Mode::LayerList, vec![key('u')], Action::ScrollUp),
        bind(Mode::LayerList, vec![key('r')], Action::ScrollRight),
        bind(Mode::LayerList, vec![key('l')], Action::ScrollLeft),
    ]);
    let mut app = App::new(four_layers(), keymap);
    press(&mut app, 'd');
    press(&mut app, 'd');
    press(&mut app, 'r');
    let s = srs_panel(&app);
    assert_eq!((s.state.x, s.state.y), (1, 2));
    press(&mut app, 'u');
    press(&mut app, 'u');
    press(&mut app, 'u');
    press(&mut app, 'l');
    press(&mut app, 'l');
    let s = srs_panel(&app);
    assert_eq!((s.state.x, s.state.y), (0, 0));
}

#[test]
fn init_records_the_initial_surface_size() {
    let mut app = App::new(four_layers(), Keymap::new(vec![]));
    app.init(120, 40);
    assert_eq!((app.surface_width, app.surface_height), (120, 40));
}
