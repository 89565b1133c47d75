use layer_browser::action::Action;
use layer_browser::components::layers::LayerList;
use layer_browser::data::extent::Extent;
use layer_browser::data::fields::Fields;
use layer_browser::data::srs::Srs;
use layer_browser::data::LayerInfo;
use layer_browser::key::Key;
use layer_browser::key::KeyCode;
use layer_browser::keymap::Binding;
use layer_browser::keymap::Keymap;
use layer_browser::keymap::Mode;

fn key(c: char) -> Key {
    Key::plain(KeyCode::Char(c))
}

fn sample_layer(name: &str) -> LayerInfo {
    LayerInfo {
        name: name.to_string(),
        extent: Extent {
            xmin: -1_000_000,
            ymin: -2_000_000,
            xmax: 3_000_000,
            ymax: 4_000_000,
        },
        srs: Srs {
            name: "WGS 84".to_string(),
            wkt: "GEOGCS[\"WGS 84\",\n  DATUM[\"WGS_1984\"]]".to_string(),
            proj4: "+proj=longlat +datum=WGS84".to_string(),
        },
        fields: Fields {
            geom_field: vec!["geometry".to_string()],
            fields: vec![("id".to_string(), 0), ("label".to_string(), 4)],
        },
        feature_number: 42,
    }
}

#[test]
fn lookup_finds_the_bound_action() {
    let keymap = Keymap::new(vec![Binding {
        mode: Mode::LayerList,
        keys: vec![key('q')],
        action: Action::Quit,
    }]);
    assert_eq!(
        keymap.lookup(Mode::LayerList, &vec![key('q')]),
        Some(Action::Quit)
    );
    assert_eq!(keymap.lookup(Mode::LayerList, &vec![key('x')]), None);
    assert_eq!(keymap.lookup(Mode::Srs, &vec![key('q')]), None);
    assert_eq!(
        keymap.lookup(Mode::LayerList, &vec![key('q'), key('q')]),
        None
    );
}

#[test]
fn lookup_earliest_binding_wins() {
    let keymap = Keymap::new(vec![
        Binding {
            mode: Mode::LayerList,
            keys: vec![key('q')],
            action: Action::Help,
        },
        Binding {
            mode: Mode::LayerList,
            keys: vec![key('q')],
            action: Action::Quit,
        },
    ]);
    assert_eq!(
        keymap.lookup(Mode::LayerList, &vec![key('q')]),
        Some(Action::Help)
    );
}

#[test]
fn resolve_prefers_the_single_key_and_keeps_pending() {
    let keymap = Keymap::new(vec![
        Binding {
            mode: Mode::LayerList,
            keys: vec![key('q')],
            action: Action::Quit,
        },
        Binding {
            mode: Mode::LayerList,
            keys: vec![key('a'), key('q')],
            action: Action::Help,
        },
    ]);
    let mut pending = vec![key('a')];
    let resolved = keymap.resolve(Mode::LayerList, &mut pending, key('q'));
    assert_eq!(resolved, Some(Action::Quit));
    assert_eq!(pending, vec![key('a')]);
}

#[test]
fn resolve_accumulates_unbound_keys_and_matches_the_sequence() {
    let keymap = Keymap::new(vec![Binding {
        mode: Mode::LayerList,
        keys: vec![key('g'), key('h')],
        action: Action::Help,
    }]);
    let mut pending = Vec::new();
    assert_eq!(keymap.resolve(Mode::LayerList, &mut pending, key('g')), None);
    assert_eq!(pending, vec![key('g')]);
    assert_eq!(
        keymap.resolve(Mode::LayerList, &mut pending, key('h')),
        Some(Action::Help)
    );
    assert_eq!(pending, vec![key('g'), key('h')]);
}

#[test]
fn modifiers_distinguish_key_presses() {
    let ctrl_q = Key {
        code: KeyCode::Char('q'),
        ctrl: true,
        alt: false,
    };
    let keymap = Keymap::new(vec![Binding {
        mode: Mode::LayerList,
        keys: vec![ctrl_q],
        action: Action::Quit,
    }]);
    assert_eq!(keymap.lookup(Mode::LayerList, &vec![key('q')]), None);
    assert_eq!(
        keymap.lookup(Mode::LayerList, &vec![ctrl_q]),
        Some(Action::Quit)
    );
}

#[test]
fn data_srs_line_count_counts_closed_lines() {
    let srs = Srs {
        name: "WGS 84".to_string(),
        wkt: "GEOGCS[\"WGS 84\",\n  DATUM[\"WGS_1984\"]]".to_string(),
        proj4: "+proj=longlat".to_string(),
    };
    // name: 1 line, wkt: 2 lines, proj4: 1 line.
    assert_eq!(srs.line_count(), 4);
    let empty = Srs {
        name: String::new(),
        wkt: String::new(),
        proj4: String::new(),
    };
    // Three empty values still print as three closed lines.
    assert_eq!(empty.line_count(), 3);
}

#[test]
fn panel_line_count_and_width_measure_the_display_text() {
    let panel = layer_browser::components::srs::Srs::from_layerinfo(&sample_layer("alpha"));
    // "WGS 84" + "GEOGCS[...]" over two lines + "+proj=..." one line.
    assert_eq!(panel.line_count(), 4);
    // The widest line is the proj4 string, 26 characters.
    assert_eq!(panel.line_width(), 26);
    let empty = layer_browser::components::srs::Srs::new();
    assert_eq!(empty.line_count(), 3);
    assert_eq!(empty.line_width(), 0);
}

#[test]
fn layer_list_names_keeps_order() {
    let list = LayerList::new(vec![sample_layer("alpha"), sample_layer("beta")]);
    assert_eq!(
        list.names(),
        vec!["alpha".to_string(), "beta".to_string()]
    );
    assert_eq!(list.layer_idx(), 0);
    assert!(list.is_focused);
}

#[test]
fn duplicate_makes_an_equal_snapshot() {
    let original = sample_layer("alpha");
    let copy = original.duplicate();
    assert_eq!(copy, original);
    let action = Action::PassLayerInfo(original.clone());
    assert_eq!(action.duplicate(), action);
    assert_eq!(Action::Error("boom".to_string()).duplicate(), Action::Error("boom".to_string()));
}
