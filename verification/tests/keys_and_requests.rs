//! Key dispatch, armed engine calls, and the library's laws on concrete values.
use trading_telemetry::app::requests::EngineRequest;
use trading_telemetry::app::{
    merge_bar, normalize_instrument, wrap_index, App, ChartSeriesState, FrvpPinPhase, InputMode,
    IndicatorListSide, LayoutMode, PendingWatchlistOp, Screen,
};
use trading_telemetry::keys::{handle_key, Key, KeyEffect};
use trading_telemetry::model::{
    ChartInterestResponse, IndicatorConfig, IndicatorKind, NumericPresets, OhlcvBar, PaperDefaults,
    PaperSnapshot, QuoteRow, WatchlistSnapshot, WorkspaceChartSnapshot, WorkspaceSnapshot,
};
use trading_telemetry::text::{eq_ignore_ascii_case, to_ascii_upper, trim};

fn presets() -> NumericPresets<f64> {
    NumericPresets {
        vp_box_width: 30.0,
        vp_value_area_volume: 70.0,
        vp_histogram_opacity: 0.35,
        vp_level_opacity: 1.0,
        order_qty: 1.0,
        order_price_unset: 0.0,
    }
}

fn empty_paper() -> PaperSnapshot<f64> {
    PaperSnapshot {
        active_account_id: String::new(),
        accounts: vec![],
        defaults: PaperDefaults {
            name: String::new(),
            currency: "USD".into(),
            initial_balance: 0.0,
            commission_per_fill_usd: 0.0,
            leverage_enabled: false,
            leverage_multiple: 1.0,
            maintenance_margin_ratio: 0.0,
        },
        working_orders: vec![],
        positions: vec![],
        filled_order_history: vec![],
        balance_history: vec![],
        trade_marks: vec![],
    }
}

fn bar(ts: i64, close: f64) -> OhlcvBar<f64> {
    OhlcvBar { ts, open: close, high: close, low: close, close, volume: 1.0 }
}

fn workspace_app() -> App<f64> {
    let mut app = App::new(presets(), empty_paper());
    handle_key(&mut app, Key::Enter);
    app
}

fn with_bars(app: &mut App<f64>, n: usize) -> Vec<OhlcvBar<f64>> {
    let bars: Vec<OhlcvBar<f64>> = (0..n).map(|i| bar(1_700_000_000 + i as i64 * 60, 100.0 + i as f64)).collect();
    app.apply_chart_series(ChartInterestResponse {
        instrument: "SPY".into(),
        timeframe: "1D".into(),
        status: "ok".into(),
        bars: bars.clone(),
        chart_id: Some("primary".into()),
        indicators: vec![],
        series: vec![],
    });
    bars
}

fn type_keys(app: &mut App<f64>, text: &str) {
    for c in text.chars() {
        handle_key(app, Key::Char(c));
    }
}

#[test]
fn welcome_enter_opens_workspace_and_esc_quits_there() {
    let mut app = App::new(presets(), empty_paper());
    assert_eq!(handle_key(&mut app, Key::Char('x')), KeyEffect::Nothing);
    assert_eq!(app.screen, Screen::Welcome);
    handle_key(&mut app, Key::Enter);
    assert_eq!(app.screen, Screen::Workspace);
    assert!(app.needs_chart_load);
    let mut welcome = App::new(presets(), empty_paper());
    handle_key(&mut welcome, Key::Esc);
    assert!(welcome.should_quit);
}

#[test]
fn help_overlay_eats_keys_until_closed() {
    let mut app = workspace_app();
    handle_key(&mut app, Key::Char('?'));
    assert!(app.help_open);
    handle_key(&mut app, Key::Char('o'));
    assert_eq!(app.input_mode, InputMode::Normal, "panel key is eaten while help is open");
    handle_key(&mut app, Key::Esc);
    assert!(!app.help_open);
    handle_key(&mut app, Key::Char('o'));
    assert_eq!(app.input_mode, InputMode::IndicatorPanel);
}

#[test]
fn instrument_prompt_by_keys_uppercases_and_loads() {
    let mut app = workspace_app();
    app.chart_load_started();
    handle_key(&mut app, Key::Char('i'));
    type_keys(&mut app, "es!");
    assert_eq!(app.input_mode, InputMode::InstrumentPrompt { buffer: "ES".into() });
    handle_key(&mut app, Key::Backspace);
    assert_eq!(app.input_mode, InputMode::InstrumentPrompt { buffer: "E".into() });
    type_keys(&mut app, "s");
    handle_key(&mut app, Key::Enter);
    assert_eq!(app.input_mode, InputMode::Normal);
    assert_eq!(app.chart().instrument, "ES");
    assert!(app.needs_chart_load);
}

#[test]
fn symbol_prompt_stops_at_sixteen_bytes() {
    let mut app = workspace_app();
    handle_key(&mut app, Key::Char('i'));
    type_keys(&mut app, "abcdefghijklmnopqrst");
    match &app.input_mode {
        InputMode::InstrumentPrompt { buffer } => assert_eq!(buffer, "ABCDEFGHIJKLMNOP"),
        other => panic!("expected prompt, got {other:?}"),
    }
}

#[test]
fn panel_c_asks_for_type_style_on_available_only() {
    let mut app = workspace_app();
    handle_key(&mut app, Key::Char('o'));
    assert_eq!(app.indicator_list_side, IndicatorListSide::Current);
    handle_key(&mut app, Key::Tab);
    assert_eq!(handle_key(&mut app, Key::Char('c')), KeyEffect::OpenTypeStyle);
    app.indicator_open_type_style(0.9);
    assert_eq!(handle_key(&mut app, Key::Left), KeyEffect::NudgeTypeStyle(-1));
    assert_eq!(handle_key(&mut app, Key::Char('=')), KeyEffect::NudgeTypeStyle(1));
    handle_key(&mut app, Key::Esc);
    assert!(app.type_style_edit.is_none());
    assert_eq!(app.input_mode, InputMode::IndicatorPanel);
}

#[test]
fn length_keys_step_ma_and_hand_back_vp_box_width() {
    let mut app = workspace_app();
    handle_key(&mut app, Key::Char('o'));
    app.focused_chart_mut().indicators.push(IndicatorConfig::ma("ma10".into(), "sma", 10));
    app.focused_chart_mut().indicators.push(IndicatorConfig::session_vp_default("svp".into(), &presets()));
    app.indicator_selected = 0;
    assert_eq!(handle_key(&mut app, Key::Char('+')), KeyEffect::Nothing);
    assert_eq!(app.focused_chart().indicators[0].length, Some(11));
    assert_eq!(handle_key(&mut app, Key::Char('-')), KeyEffect::Nothing);
    assert_eq!(app.focused_chart().indicators[0].length, Some(10));
    app.indicator_selected = 1;
    assert_eq!(handle_key(&mut app, Key::Char('-')), KeyEffect::AdjustBoxWidth { row: 1, steps: -1 });
    assert_eq!(handle_key(&mut app, Key::Char('+')), KeyEffect::AdjustBoxWidth { row: 1, steps: 1 });
    app.indicator_set_box_width(1, 35.0);
    assert_eq!(app.focused_chart().indicators[1].box_width, Some(35.0));
    assert!(app.pending_indicators.is_some());
}

#[test]
fn timeframe_keys_do_nothing_in_the_indicator_panel() {
    let mut app = workspace_app();
    handle_key(&mut app, Key::Char('o'));
    app.focused_chart_mut().indicators.push(IndicatorConfig::ma("ma5".into(), "sma", 5));
    app.focused_chart_mut().indicators.push(IndicatorConfig::session_vp_default("svp".into(), &presets()));
    app.indicator_selected = 0;
    let timeframe = app.focused_chart().timeframe.clone();
    let reload_pending = app.needs_chart_load;
    app.cycle_timeframe(1);
    app.cycle_timeframe(-1);
    assert_eq!(handle_key(&mut app, Key::Char(']')), KeyEffect::Nothing);
    assert_eq!(handle_key(&mut app, Key::Char('[')), KeyEffect::Nothing);
    assert_eq!(app.focused_chart().indicators[0].length, Some(5));
    app.indicator_selected = 1;
    assert_eq!(handle_key(&mut app, Key::Char(']')), KeyEffect::Nothing);
    assert_eq!(app.focused_chart().timeframe, timeframe);
    assert_eq!(app.input_mode, InputMode::IndicatorPanel);
    assert!(app.pending_indicators.is_none());
    assert_eq!(app.needs_chart_load, reload_pending);
}

#[test]
fn ma_length_never_drops_below_one() {
    let mut app = workspace_app();
    app.input_mode = InputMode::IndicatorPanel;
    app.focused_chart_mut().indicators.push(IndicatorConfig::ma("ma1".into(), "sma", 1));
    assert_eq!(app.indicator_adjust_length(-5), None);
    assert_eq!(app.focused_chart().indicators[0].length, Some(1));
    assert!(app.pending_indicators.is_none(), "no change, nothing to apply");
}

#[test]
fn frvp_pins_by_keys() {
    let mut app = workspace_app();
    let bars = with_bars(&mut app, 6);
    handle_key(&mut app, Key::Char('o'));
    handle_key(&mut app, Key::Char('f'));
    assert_eq!(app.input_mode, InputMode::FrvpPlacing);
    handle_key(&mut app, Key::Char('['));
    handle_key(&mut app, Key::Char('l'));
    handle_key(&mut app, Key::Enter);
    assert_eq!(app.frvp_place.as_ref().map(|p| p.phase), Some(FrvpPinPhase::End));
    handle_key(&mut app, Key::Right);
    handle_key(&mut app, Key::Char(' '));
    assert_eq!(app.input_mode, InputMode::IndicatorPanel);
    let cfg = &app.focused_chart().indicators[0];
    assert_eq!(cfg.id, "frvp1");
    assert_eq!(cfg.start, Some(bars[1].ts));
    assert_eq!(cfg.end, Some(bars[3].ts));
    assert!(cfg.enabled);
}

#[test]
fn frvp_end_pins_read_in_either_order() {
    let mut app = workspace_app();
    let bars = with_bars(&mut app, 6);
    app.input_mode = InputMode::IndicatorPanel;
    app.indicator_add_fixed_range_vp();
    // Start pin on the tip, end pin three bars earlier: stored oldest first.
    app.frvp_place_confirm();
    app.frvp_place_move(-4);
    app.frvp_place_confirm();
    let cfg = &app.focused_chart().indicators[0];
    assert_eq!(cfg.start, Some(bars[1].ts));
    assert_eq!(cfg.end, Some(bars[5].ts));
}

#[test]
fn normal_keys_route_to_watchlist_and_layout() {
    let mut app = workspace_app();
    app.apply_workspace(WorkspaceSnapshot {
        layout_mode: "single".into(),
        charts: vec![WorkspaceChartSnapshot {
            id: "primary".into(),
            instrument: "SPY".into(),
            timeframe: "1D".into(),
            indicators: vec![],
            type_styles: vec![],
        }],
        watchlists: vec![
            WatchlistSnapshot { id: "core".into(), name: "Core".into(), symbols: vec!["ES".into(), "NQ".into()] },
            WatchlistSnapshot { id: "focus".into(), name: "Focus".into(), symbols: vec![] },
        ],
        active_watchlist_id: "core".into(),
    });
    handle_key(&mut app, Key::Down);
    assert_eq!(app.watchlist_selected, 1);
    handle_key(&mut app, Key::Down);
    assert_eq!(app.watchlist_selected, 0, "selection wraps");
    handle_key(&mut app, Key::Char('p'));
    assert_eq!(app.pending_watchlist, Some(PendingWatchlistOp::SetActive { watchlist_id: "focus".into() }));
    handle_key(&mut app, Key::Char('L'));
    assert_eq!(app.pending_layout, Some(LayoutMode::DualVertical));
    handle_key(&mut app, Key::Char(' '));
    assert_eq!(app.chart().instrument, "ES");
}

#[test]
fn armed_calls_come_out_in_order_and_disarm() {
    let mut app = workspace_app();
    app.toggle_layout();
    app.input_mode = InputMode::IndicatorPanel;
    app.indicator_add_volume();
    let reqs = app.take_engine_requests();
    assert_eq!(reqs.len(), 3);
    assert!(matches!(&reqs[0], EngineRequest::Layout { mode } if mode == "dual-vertical"));
    assert!(matches!(&reqs[1], EngineRequest::Indicators(p) if p.chart_id == "primary" && p.indicators.len() == 1));
    match &reqs[2] {
        EngineRequest::ChartInterest(r) => {
            assert_eq!(r.instrument, "SPY");
            assert_eq!(r.timeframe, "1D");
            assert_eq!(r.chart_id.as_deref(), Some("primary"));
        }
        other => panic!("expected interest, got {other:?}"),
    }
    assert!(app.pending_layout.is_none());
    assert!(app.pending_indicators.is_none());
    assert!(!app.needs_chart_load);
    assert!(app.take_engine_requests().is_empty());
}

#[test]
fn latest_quote_per_symbol_is_kept() {
    let mut app = workspace_app();
    let q = |sym: &str, last: f64| QuoteRow {
        symbol: sym.into(),
        status: "ok".into(),
        last: Some(last),
        previous_close: None,
        change: None,
        change_pct: None,
    };
    app.apply_quotes(vec![q("SPY", 1.0), q("QQQ", 2.0), q("SPY", 3.0)]);
    assert_eq!(app.quotes.len(), 2);
    assert_eq!(app.quote_for("SPY").and_then(|r| r.last), Some(3.0));
    assert_eq!(app.quote_for("QQQ").and_then(|r| r.last), Some(2.0));
    assert!(app.quote_for("IWM").is_none());
}

#[test]
fn merged_bars_stay_ordered_and_stale_tips_are_ignored() {
    let mut bars = vec![bar(60, 1.0), bar(120, 2.0)];
    merge_bar(&mut bars, bar(120, 5.0));
    assert_eq!(bars.len(), 2);
    assert_eq!(bars[1].close, 5.0);
    merge_bar(&mut bars, bar(180, 6.0));
    assert_eq!(bars.len(), 3);
    merge_bar(&mut bars, bar(60, 9.0));
    assert_eq!(bars.len(), 3);
    assert_eq!(bars[0].close, 1.0, "stale bar ignored");
    assert!(bars.windows(2).all(|w| w[0].ts < w[1].ts));
    let mut empty: Vec<OhlcvBar<f64>> = vec![];
    merge_bar(&mut empty, bar(5, 1.0));
    assert_eq!(empty.len(), 1);
}

#[test]
fn chart_series_keeps_unsent_pin_drafts_after_engine_list() {
    let mut app = workspace_app();
    with_bars(&mut app, 3);
    app.input_mode = InputMode::IndicatorPanel;
    app.indicator_add_fixed_range_vp();
    app.apply_chart_series(ChartInterestResponse {
        instrument: "SPY".into(),
        timeframe: "1D".into(),
        status: "ok".into(),
        bars: vec![bar(1, 1.0)],
        chart_id: Some("primary".into()),
        indicators: vec![IndicatorConfig::volume("volume".into())],
        series: vec![],
    });
    let kinds: Vec<String> = app.focused_chart().indicators.iter().map(|c| c.indicator_type.key()).collect();
    assert_eq!(kinds, vec!["volume".to_string(), "fixed_range_vp".to_string()]);
    app.apply_chart_series(ChartInterestResponse {
        instrument: "SPY".into(),
        timeframe: "1D".into(),
        status: "weird".into(),
        bars: vec![],
        chart_id: Some("primary".into()),
        indicators: vec![],
        series: vec![],
    });
    assert_eq!(
        app.focused_chart().series,
        ChartSeriesState::Error { message: "unexpected chart status: weird".into() }
    );
}

#[test]
fn normalizing_an_instrument_twice_changes_nothing() {
    for raw in ["qqq", "   ", "  spy \t", "\u{3000}brk.b\n", "Es_F", "é x "] {
        let once = normalize_instrument(raw);
        assert_eq!(normalize_instrument(&once), once, "input {raw:?}");
    }
    assert_eq!(normalize_instrument("qqq"), "QQQ");
    assert_eq!(normalize_instrument(&normalize_instrument("qqq")), "QQQ");
    assert_eq!(normalize_instrument("é x "), "é X");
}

#[test]
fn text_helpers() {
    assert_eq!(normalize_instrument("  qqq \t"), "QQQ");
    assert_eq!(normalize_instrument("   "), "");
    assert_eq!(trim("\u{3000} a b \n"), "a b");
    assert_eq!(to_ascii_upper("éa1z"), "éA1Z");
    assert!(eq_ignore_ascii_case("Sell", "sELL"));
    assert!(!eq_ignore_ascii_case("sell", "sells"));
    assert_eq!(wrap_index(0, -1, 3), 2);
    assert_eq!(wrap_index(2, 1, 3), 0);
    assert_eq!(wrap_index(1, -7, 3), 0);
}

#[test]
fn catalog_maxima_and_kinds() {
    assert_eq!(App::<f64>::max_for_indicator_type("ma"), Some(3));
    assert_eq!(App::<f64>::max_for_indicator_type("garch"), Some(1));
    assert_eq!(App::<f64>::max_for_indicator_type("fixed_range_vp"), Some(4));
    assert_eq!(App::<f64>::max_for_indicator_type("anchored_vp"), Some(2));
    assert_eq!(App::<f64>::max_for_indicator_type("rsi"), None);
    assert_eq!(IndicatorKind::from_key("anchored_vp"), IndicatorKind::AnchoredVp);
    assert_eq!(IndicatorKind::from_key("rsi"), IndicatorKind::Other("rsi".into()));
    assert_eq!(IndicatorKind::Other("ma".into()).key(), "ma");
    assert!(IndicatorKind::Other("ma".into()).same_as(&IndicatorKind::Ma));
}

#[test]
fn ma_stack_fills_defaults_then_shortest_free_length() {
    let mut app = workspace_app();
    app.input_mode = InputMode::IndicatorPanel;
    app.focused_chart_mut().indicators.push(IndicatorConfig::ma("ma60".into(), "ema", 60));
    app.indicator_add_default_ma_stack();
    let lens: Vec<Option<i64>> = app.focused_chart().indicators.iter().map(|c| c.length).collect();
    assert_eq!(lens, vec![Some(60), Some(10), Some(200)]);
    assert_eq!(app.focused_chart().indicators[1].id, "ma10");
    app.indicator_add_default_ma_stack();
    assert_eq!(app.last_indicator_error.as_deref(), Some("max 3 MA lines per chart"));

    let mut taken = workspace_app();
    taken.input_mode = InputMode::IndicatorPanel;
    for (id, len) in [("a", 10), ("b", 60)] {
        taken.focused_chart_mut().indicators.push(IndicatorConfig::ma(id.into(), "sma", len));
    }
    taken.focused_chart_mut().indicators.push(IndicatorConfig::volume("v".into()));
    // Only 200 is free among the defaults → it is added.
    taken.indicator_add_default_ma_stack();
    assert_eq!(taken.focused_chart().indicators.last().and_then(|c| c.length), Some(200));
}

#[test]
fn layout_key_reads_back_and_toggle_is_an_involution() {
    for m in [LayoutMode::Single, LayoutMode::DualVertical] {
        assert_eq!(LayoutMode::from_engine(m.as_str()), m);
        assert_eq!(m.toggled().toggled(), m);
        assert_ne!(m.toggled(), m);
    }
    assert_eq!(LayoutMode::from_engine("grid"), LayoutMode::Single);
}

#[test]
fn catalog_adds_stop_at_per_chart_maxima() {
    let mut app = workspace_app();
    with_bars(&mut app, 10);
    handle_key(&mut app, Key::Char('o'));
    app.indicator_list_side = IndicatorListSide::Available;
    // MA stack, Volume, Session VP, Anchored VP, GEX, GARCH: press Enter well past each maximum.
    for (row, kind, max) in [
        (0usize, IndicatorKind::Ma, 3usize),
        (1, IndicatorKind::Volume, 1),
        (2, IndicatorKind::SessionVp, 1),
        (4, IndicatorKind::AnchoredVp, 2),
        (5, IndicatorKind::Gex, 1),
        (6, IndicatorKind::Garch, 1),
    ] {
        app.indicator_available_selected = row;
        for _ in 0..5 {
            app.indicator_add_selected_available();
            assert!(app.focused_indicator_type_count(&kind) <= max);
        }
        assert_eq!(app.focused_indicator_type_count(&kind), max);
    }
    assert_eq!(app.last_indicator_error.as_deref(), Some("GARCH limit is 1 per chart"));
}
