//! Engine endpoint routes, trade-mark lookup for fill rows, MA colour slots and
//! paper-settings text.
use trading_telemetry::app::indicators::ma_slot_for_indicator;
use trading_telemetry::app::paper::{fill_trade_mark_visible, format_asset_class_restriction};
use trading_telemetry::app::pins::{PinAt, PinMark};
use trading_telemetry::app::{App, AvpPlaceState, Chart, ChartSeriesState, FrvpPinPhase, FrvpPlaceState};
use trading_telemetry::endpoint::{
    indicator_apply_error, paper_error_detail, EndpointError, EngineEndpoint,
};
use trading_telemetry::labels::{
    anchor_pin_mark, extend_mark, fixed_range_pins_mark, level_marks, profile_data_mark,
    unavailable_reason_label,
};
use trading_telemetry::model::{
    ChartInterestResponse, FilledOrderRow, IndicatorConfig, IndicatorSeriesData,
    IndicatorUpdateEvent, IpcEvent, LevelStyle, NumericPresets, OhlcvBar, PaperDefaults,
    PaperSnapshot, TradeMarkPin, VpProfile,
};
use trading_telemetry::timeframe::{format_bar_countdown, forming_bar_remaining_secs};
use trading_telemetry::vp_span::{
    anchored_profile_span, fixed_range_profile_span, session_profile_span, ProfileSpan,
};

fn presets() -> NumericPresets<f64> {
    NumericPresets {
        vp_box_width: 30.0,
        vp_value_area_volume: 70.0,
        vp_histogram_opacity: 0.35,
        vp_level_opacity: 1.0,
        order_qty: 1.0,
        order_price_unset: 0.0,
    }
}

fn empty_paper() -> PaperSnapshot<f64> {
    PaperSnapshot {
        active_account_id: String::new(),
        accounts: vec![],
        defaults: PaperDefaults {
            name: String::new(),
            currency: "USD".into(),
            initial_balance: 0.0,
            commission_per_fill_usd: 0.0,
            leverage_enabled: false,
            leverage_multiple: 1.0,
            maintenance_margin_ratio: 0.0,
        },
        working_orders: vec![],
        positions: vec![],
        filled_order_history: vec![],
        balance_history: vec![],
        trade_marks: vec![],
    }
}

fn fill(id: &str, pair: &str) -> FilledOrderRow<f64> {
    FilledOrderRow {
        id: id.into(),
        account_id: "acc".into(),
        symbol: "SPY".into(),
        side: "buy".into(),
        order_type: "market".into(),
        qty: 1.0,
        limit: None,
        stop: None,
        fill_price: 100.0,
        commission: 0.0,
        placed_ts: 1,
        filled_ts: 2,
        duration_s: 1,
        margin: None,
        trade_mark_pair_id: pair.into(),
        trade_mark_kind: String::new(),
    }
}

fn mark(pair: &str, fill_id: &str, visible: bool) -> TradeMarkPin<f64> {
    TradeMarkPin {
        pair_id: pair.into(),
        fill_id: fill_id.into(),
        instrument: "SPY".into(),
        kind: "entry".into(),
        price: 100.0,
        filled_ts: 2,
        side: "buy".into(),
        visible,
    }
}

fn blank_profile() -> VpProfile<f64> {
    VpProfile {
        session_start: None,
        session_end: None,
        range_start: None,
        range_end: None,
        anchor_end: None,
        anchor: None,
        levels_end: None,
        extend_to_right: None,
        high: 2.0,
        low: 1.0,
        poc: 1.5,
        vah: 1.8,
        val: 1.2,
        total_volume: 10.0,
        bins: vec![],
    }
}

fn series(profiles: usize) -> IndicatorSeriesData<f64> {
    let profile = VpProfile {
        session_start: None,
        session_end: None,
        range_start: None,
        range_end: None,
        anchor_end: None,
        anchor: None,
        levels_end: None,
        extend_to_right: None,
        high: 2.0,
        low: 1.0,
        poc: 1.5,
        vah: 1.8,
        val: 1.2,
        total_volume: 10.0,
        bins: vec![],
    };
    IndicatorSeriesData {
        series_type: "fixed_range_vp".into(),
        status: None,
        reason: None,
        values: vec![],
        ma_type: None,
        length: None,
        profiles: vec![profile; profiles],
        net_gex: None,
        spot: None,
        levels: vec![],
    }
}

#[test]
fn series_replies_replace_each_charts_list_whole() {
    let mut app = App::new(presets(), empty_paper());
    app.enter_workspace();
    app.chart_load_started();
    let ids = |app: &App<f64>| -> Vec<String> {
        app.charts[0].indicator_series.iter().map(|(id, _)| id.clone()).collect()
    };
    app.apply_ipc(IpcEvent::ChartSeries(ChartInterestResponse {
        instrument: "SPY".into(),
        timeframe: "1D".into(),
        status: "ok".into(),
        bars: vec![],
        chart_id: Some("primary".into()),
        indicators: vec![],
        series: vec![("frvp1".into(), series(1)), ("frvp2".into(), series(2))],
    }));
    assert_eq!(ids(&app), ["frvp1", "frvp2"]);
    app.apply_ipc(IpcEvent::IndicatorUpdate(IndicatorUpdateEvent {
        chart_id: "primary".into(),
        instrument: "SPY".into(),
        timeframe: "1D".into(),
        indicators: vec![],
        series: vec![("frvp2".into(), series(3))],
    }));
    assert_eq!(ids(&app), ["frvp2"]);
    assert_eq!(app.charts[0].indicator_series[0].1.profiles.len(), 3);
}

#[test]
fn ws_url_rewrites_http_scheme() {
    let ep = EngineEndpoint::parse("http://127.0.0.1:8765").unwrap();
    assert_eq!(ep.ws_url().as_str(), "ws://127.0.0.1:8765/v1/ws");
    assert_eq!(ep.snapshot_url().as_str(), "http://127.0.0.1:8765/v1/snapshot");
    assert_eq!(ep.chart_interest_url().as_str(), "http://127.0.0.1:8765/v1/chart/interest");
    assert_eq!(ep.workspace_url().as_str(), "http://127.0.0.1:8765/v1/workspace");
    assert_eq!(ep.watchlist_add_url().as_str(), "http://127.0.0.1:8765/v1/watchlist/add");
    assert_eq!(ep.watchlist_rename_url().as_str(), "http://127.0.0.1:8765/v1/watchlist/rename");
}

#[test]
fn https_engine_uses_wss_and_keeps_every_route_on_the_host() {
    let ep = EngineEndpoint::parse("https://engine.example:9000/base/path?q=1").unwrap();
    assert_eq!(ep.base(), "https://engine.example:9000/base/path?q=1");
    assert_eq!(ep.ws_url(), "wss://engine.example:9000/v1/ws");
    assert_eq!(ep.chart_type_styles_url(), "https://engine.example:9000/v1/chart/type-styles");
    assert_eq!(ep.watchlist_active_url(), "https://engine.example:9000/v1/watchlist/active");
    assert_eq!(ep.watchlist_remove_url(), "https://engine.example:9000/v1/watchlist/remove");
    assert_eq!(ep.indicators_url(), "https://engine.example:9000/v1/indicators");
    assert_eq!(ep.paper_orders_url(), "https://engine.example:9000/v1/paper/orders");
    assert_eq!(ep.paper_orders_modify_url(), "https://engine.example:9000/v1/paper/orders/modify");
    assert_eq!(ep.paper_orders_cancel_url(), "https://engine.example:9000/v1/paper/orders/cancel");
    assert_eq!(
        ep.paper_positions_close_url(),
        "https://engine.example:9000/v1/paper/positions/close"
    );
    assert_eq!(
        ep.paper_positions_bracket_url(),
        "https://engine.example:9000/v1/paper/positions/bracket"
    );
    assert_eq!(
        ep.paper_trade_mark_visibility_url(),
        "https://engine.example:9000/v1/paper/trade-marks/visibility"
    );
    let copy = ep.clone();
    assert_eq!(copy.base(), ep.base());
}

#[test]
fn engine_url_errors_name_the_reason() {
    assert!(matches!(EngineEndpoint::parse("not a url"), Err(EndpointError::InvalidUrl(_))));
    // A URL that parses is accepted, as the URL parser accepts it; a `mailto:` URL cannot
    // be a base, so its routes do not resolve.
    let mail = EngineEndpoint::parse("mailto:desk@example.com").expect("parses");
    assert_eq!(mail.base(), "mailto:desk@example.com");
    assert!(!mail.routable());
    assert!(mail.routes().is_none());
    let ep = EngineEndpoint::parse("http://127.0.0.1:8765").unwrap();
    assert!(ep.routable());
    let routes = ep.routes().expect("http base takes every route");
    assert_eq!(routes.snapshot, "http://127.0.0.1:8765/v1/snapshot");
    assert_eq!(routes.paper_trade_mark_visibility, "http://127.0.0.1:8765/v1/paper/trade-marks/visibility");
    assert_eq!(routes.ws, "ws://127.0.0.1:8765/v1/ws");
}

#[test]
fn fill_row_finds_its_trade_mark_by_pair_then_fill_id() {
    let mut app = App::new(presets(), empty_paper());
    app.paper.trade_marks = vec![mark("p1", "f-other", false), mark("", "f2", true)];
    assert_eq!(fill_trade_mark_visible(&app, &fill("f1", "p1")), Some(false));
    assert_eq!(fill_trade_mark_visible(&app, &fill("f2", "")), Some(true));
    assert_eq!(fill_trade_mark_visible(&app, &fill("f3", "p9")), None);
    assert_eq!(fill_trade_mark_visible(&app, &fill("", "")), None);
}

#[test]
fn ma_slots_count_every_ma_on_the_chart() {
    let mut chart: Chart<f64> = Chart::default_single();
    chart.indicators = vec![
        IndicatorConfig::ma("ma-a".into(), "sma", 20),
        IndicatorConfig::volume("vol".into()),
        IndicatorConfig::ma("ma-b".into(), "ema", 50),
        IndicatorConfig::ma("ma-c".into(), "sma", 100),
        IndicatorConfig::ma("ma-d".into(), "sma", 200),
    ];
    chart.indicators[2].enabled = false;
    assert_eq!(ma_slot_for_indicator(&chart, "ma-a"), Some(0));
    assert_eq!(ma_slot_for_indicator(&chart, "ma-b"), Some(1));
    assert_eq!(ma_slot_for_indicator(&chart, "ma-c"), Some(2));
    assert_eq!(ma_slot_for_indicator(&chart, "ma-d"), Some(0));
    assert_eq!(ma_slot_for_indicator(&chart, "vol"), None);
    assert_eq!(ma_slot_for_indicator(&chart, "missing"), None);
}

#[test]
fn asset_class_restriction_text() {
    assert_eq!(format_asset_class_restriction(Some("  equities  ")), "equities");
    assert_eq!(format_asset_class_restriction(Some("   ")), "(none)");
    assert_eq!(format_asset_class_restriction(None), "(none)");
}

#[test]
fn indicator_apply_errors_prefer_the_engine_detail() {
    assert_eq!(
        indicator_apply_error("422 Unprocessable Entity", r#"{"detail":"max 4 MA lines"}"#),
        "422 Unprocessable Entity: max 4 MA lines"
    );
    assert_eq!(indicator_apply_error("422", r#"{"detail":[1,2]}"#), "422: [1,2]");
    assert_eq!(indicator_apply_error("500", "engine down"), "500: engine down");
    assert_eq!(indicator_apply_error("500", ""), "500: ");
}

#[test]
fn paper_errors_fall_back_to_body_then_status() {
    assert_eq!(paper_error_detail("400", r#"{"detail":"insufficient cash"}"#), "insufficient cash");
    assert_eq!(paper_error_detail("400", r#"{"detail":""}"#), r#"{"detail":""}"#);
    assert_eq!(paper_error_detail("400", "bad order"), "bad order");
    assert_eq!(paper_error_detail("400 Bad Request", ""), "400 Bad Request");
}

#[test]
fn countdown_text_and_chrome_title_edges() {
    assert_eq!(format_bar_countdown(35), "0:35");
    assert_eq!(format_bar_countdown(290), "4:50");
    assert_eq!(format_bar_countdown(3_600), "1:00:00");
    assert_eq!(format_bar_countdown(86_399), "23:59:59");
    // Closed bar, not yet opened, unknown timeframe: no countdown.
    assert_eq!(forming_bar_remaining_secs("1m", 1_000, 1_060), None);
    assert_eq!(forming_bar_remaining_secs("1m", 1_000, 999), None);
    assert_eq!(forming_bar_remaining_secs("2m", 1_000, 1_010), None);
    assert_eq!(forming_bar_remaining_secs("1m", 1_000, 1_000), Some(60));
    assert_eq!(forming_bar_remaining_secs("1D", 0, 1), Some(86_399));
    let chart: Chart<f64> = Chart::default_single();
    assert_eq!(chart.chrome_title(true, 0), " ● SPY · 1D ");
    assert_eq!(chart.chrome_title(false, 0), "   SPY · 1D ");
}

#[test]
fn current_row_marks() {
    let mut chart: Chart<f64> = Chart::default_single();
    let mut frvp = IndicatorConfig::volume("fr".into());
    frvp.enabled = false;
    assert_eq!(fixed_range_pins_mark(&frvp), "pins?");
    frvp.start = Some(10);
    frvp.end = Some(10);
    assert_eq!(fixed_range_pins_mark(&frvp), "pins?");
    frvp.end = Some(20);
    assert_eq!(fixed_range_pins_mark(&frvp), "pins✓");
    frvp.start = None;
    frvp.enabled = true;
    assert_eq!(fixed_range_pins_mark(&frvp), "pins✓");
    assert_eq!(anchor_pin_mark(&frvp), "pin?");
    frvp.anchor = Some(5);
    assert_eq!(anchor_pin_mark(&frvp), "pin✓");
    assert_eq!(extend_mark(&frvp), "ext-");
    frvp.extend_to_right = Some(true);
    assert_eq!(extend_mark(&frvp), "ext+");
    assert_eq!(level_marks(&frvp), "POC+ VAH+ VAL+");
    frvp.vah = Some(LevelStyle { enabled: false, color: None, opacity: None });
    assert_eq!(level_marks(&frvp), "POC+ VAH- VAL+");
    assert_eq!(profile_data_mark(&chart, &frvp), " · …");
    chart.indicator_series = vec![("fr".into(), series(0))];
    assert_eq!(profile_data_mark(&chart, &frvp), " · empty profile");
    chart.indicator_series = vec![("fr".into(), series(1))];
    assert_eq!(profile_data_mark(&chart, &frvp), " · profile");
    frvp.enabled = false;
    chart.indicator_series = vec![];
    assert_eq!(profile_data_mark(&chart, &frvp), "");
}

#[test]
fn unavailable_reasons_read_plainly() {
    assert_eq!(unavailable_reason_label(Some("options_data_missing")), "no options data");
    assert_eq!(unavailable_reason_label(Some("options_data_unavailable")), "no options data");
    assert_eq!(unavailable_reason_label(Some("insufficient_history")), "insufficient history");
    assert_eq!(unavailable_reason_label(Some("unstable_estimate")), "unstable estimate");
    assert_eq!(unavailable_reason_label(Some("compute_failed")), "compute failed");
    assert_eq!(unavailable_reason_label(Some("vendor_timeout")), "vendor_timeout");
    assert_eq!(unavailable_reason_label(None), "unavailable");
}

#[test]
fn pins_sit_on_nearest_bars_and_follow_live_placement() {
    let p = presets();
    let mut app = App::new(p.clone(), empty_paper());
    let mut chart: Chart<f64> = Chart::default_single();
    assert!(app.pin_marks(&chart).is_empty());
    let bars: Vec<OhlcvBar<f64>> = (0..5)
        .map(|i| OhlcvBar { ts: 1_000 + i * 60, open: 1.0, high: 2.0, low: 0.5, close: 1.5, volume: 1.0 })
        .collect();
    chart.series = ChartSeriesState::Available { bars };
    let mut hidden = IndicatorConfig::fixed_range_vp_default("fr-off".into(), 1_000, 1_240, &p);
    hidden.enabled = false;
    chart.indicators = vec![
        IndicatorConfig::anchored_vp_default("av".into(), 1_130, &p),
        IndicatorConfig::fixed_range_vp_default("fr".into(), 1_029, 1_500, &p),
        hidden,
    ];
    // 1_029 is nearer 1_000 than 1_060; 1_500 is past the tip; 1_130 is nearest 1_120.
    assert_eq!(
        app.pin_marks(&chart),
        vec![
            PinAt { bar: 0, mark: PinMark::RangeStart },
            PinAt { bar: 4, mark: PinMark::RangeEnd },
            PinAt { bar: 2, mark: PinMark::Anchor },
        ]
    );
    app.avp_place = Some(AvpPlaceState {
        chart_id: chart.id.clone(),
        indicator_id: "av".into(),
        cursor_bar: 3,
        is_new: false,
    });
    app.frvp_place = Some(FrvpPlaceState {
        chart_id: chart.id.clone(),
        indicator_id: "fr".into(),
        phase: FrvpPinPhase::End,
        cursor_bar: 99,
        start_bar: Some(1),
        is_new: false,
    });
    let pins = app.pin_marks(&chart);
    assert_eq!(
        pins[3..].to_vec(),
        vec![
            PinAt { bar: 3, mark: PinMark::AnchorCursor },
            PinAt { bar: 1, mark: PinMark::PlacedStart },
            PinAt { bar: 4, mark: PinMark::PlaceCursor },
        ]
    );
    let mut other: Chart<f64> = Chart::default_dual_bottom();
    other.series = chart.series.clone();
    assert!(app.pin_marks(&other).is_empty());
}

#[test]
fn session_profiles_span_their_day_and_skip_when_off_screen() {
    let mut p = blank_profile();
    p.session_start = Some(100);
    p.session_end = Some(200);
    assert_eq!(
        session_profile_span(&p, 150, 300),
        Some(ProfileSpan { start: 100, end: 199, levels_end: 199 })
    );
    assert_eq!(session_profile_span(&p, 200, 300), None);
    assert_eq!(session_profile_span(&p, 0, 99), None);
}

#[test]
fn fixed_range_and_anchored_spans_fall_back_in_order() {
    let p = presets();
    let cfg = IndicatorConfig::fixed_range_vp_default("fr".into(), 10, 20, &p);
    let mut prof = blank_profile();
    assert_eq!(
        fixed_range_profile_span(&cfg, &prof, 0, 100),
        Some(ProfileSpan { start: 10, end: 20, levels_end: 20 })
    );
    prof.range_end = Some(30);
    prof.levels_end = Some(50);
    assert_eq!(
        fixed_range_profile_span(&cfg, &prof, 0, 100),
        Some(ProfileSpan { start: 10, end: 30, levels_end: 50 })
    );
    assert_eq!(fixed_range_profile_span(&cfg, &prof, 31, 100), None);
    assert_eq!(fixed_range_profile_span(&cfg, &prof, 0, 9), None);

    let av = IndicatorConfig::anchored_vp_default("av".into(), 40, &p);
    let mut ap = blank_profile();
    assert_eq!(
        anchored_profile_span(&av, &ap, 0, 90),
        Some(ProfileSpan { start: 40, end: 90, levels_end: 90 })
    );
    ap.anchor = Some(45);
    ap.range_end = Some(80);
    assert_eq!(
        anchored_profile_span(&av, &ap, 0, 90),
        Some(ProfileSpan { start: 45, end: 80, levels_end: 80 })
    );
    assert_eq!(anchored_profile_span(&av, &ap, 81, 90), None);
}

#[test]
fn view_window_follows_pin_placement_then_pan() {
    let mut app = App::new(presets(), empty_paper());
    let mut chart: Chart<f64> = Chart::default_single();
    assert_eq!(app.view_end_index(&chart), None);
    let bars: Vec<OhlcvBar<f64>> = (0..5)
        .map(|i| OhlcvBar { ts: 1_000 + i * 60, open: 1.0, high: 2.0, low: 0.5, close: 1.5, volume: 1.0 })
        .collect();
    chart.series = ChartSeriesState::Available { bars };
    assert_eq!(app.view_end_index(&chart), Some(4));
    chart.pan_cursor_ts = Some(1_130);
    assert_eq!(app.view_end_index(&chart), Some(2));
    app.avp_place = Some(AvpPlaceState {
        chart_id: chart.id.clone(),
        indicator_id: "av".into(),
        cursor_bar: 99,
        is_new: true,
    });
    assert_eq!(app.view_end_index(&chart), Some(4));
    app.frvp_place = Some(FrvpPlaceState {
        chart_id: chart.id.clone(),
        indicator_id: "fr".into(),
        phase: FrvpPinPhase::Start,
        cursor_bar: 1,
        start_bar: None,
        is_new: true,
    });
    assert_eq!(app.view_end_index(&chart), Some(1));
}

#[test]
fn optional_indicators_show_only_when_their_series_is_ok() {
    let mut chart: Chart<f64> = Chart::default_single();
    let mut off = IndicatorConfig::garch("g-off".into());
    off.enabled = false;
    chart.indicators = vec![off, IndicatorConfig::garch("g".into()), IndicatorConfig::gex("x".into())];
    assert!(chart.enabled_garch().is_none());
    assert!(chart.enabled_gex().is_none());
    let mut garch = series(0);
    garch.status = Some("ok".into());
    garch.values = vec![Some(0.2)];
    let mut gex = series(0);
    gex.status = Some("unavailable".into());
    chart.indicator_series = vec![("g".into(), garch.clone()), ("x".into(), gex.clone())];
    let (cfg, s) = chart.enabled_garch().unwrap();
    assert_eq!(cfg.id, "g");
    assert_eq!(s, &garch);
    assert!(chart.enabled_gex().is_none());
    gex.status = Some("ok".into());
    chart.indicator_series[1].1 = gex;
    assert_eq!(chart.enabled_gex().unwrap().0.id, "x");
    garch.values = vec![];
    chart.indicator_series[0].1 = garch;
    assert!(chart.enabled_garch().is_none());
}
