//! Workspace state machine: screens, charts, watchlists, indicator panel, pins, paper desk.
use trading_telemetry::app::{
    App, Chart, ChartSeriesState, ConnectionStatus, FrvpPinPhase, FrvpPlaceState,
    IndicatorListSide, InputMode, LayoutMode, OrderSide, PendingPaperOp, PendingWatchlistOp,
    Screen, WorkingOrderKind, MAX_MA_LINES,
};
use trading_telemetry::calendar::cash_open_ny;
use trading_telemetry::model::{
    BarUpdateEvent, ChartInterestResponse, FeedSnapshot, IndicatorConfig, IndicatorTypeStyle,
    IpcEvent, NumericPresets, OhlcvBar, PaperAccountSnapshot, PaperDefaults, PaperSnapshot,
    QuoteRow, QuoteUpdateEvent, WatchlistSnapshot, WorkingOrderSnapshot, WorkspaceChartSnapshot,
    WorkspaceSnapshot,
};
use trading_telemetry::timeframe::v1_timeframes_list;

const DEFAULT_MA_STRENGTH: f64 = 0.9;
const DEFAULT_VP_STRENGTH: f64 = 0.28;
const DEFAULT_OVERLAY_STRENGTH: f64 = 0.75;
const TYPE_STYLE_STRENGTH_STEP: f64 = 0.05;
const ORDER_QTY_STEP: f64 = 1.0;
const ORDER_PRICE_STEP: f64 = 0.01;

fn presets() -> NumericPresets<f64> {
    NumericPresets {
        vp_box_width: 30.0,
        vp_value_area_volume: 70.0,
        vp_histogram_opacity: 0.35,
        vp_level_opacity: 1.0,
        order_qty: 1.0,
        order_price_unset: 0.0,
    }
}

fn empty_paper() -> PaperSnapshot<f64> {
    PaperSnapshot {
        active_account_id: String::new(),
        accounts: vec![],
        defaults: PaperDefaults {
            name: String::new(),
            currency: "USD".into(),
            initial_balance: 0.0,
            commission_per_fill_usd: 0.0,
            leverage_enabled: false,
            leverage_multiple: 1.0,
            maintenance_margin_ratio: 0.0,
        },
        working_orders: vec![],
        positions: vec![],
        filled_order_history: vec![],
        balance_history: vec![],
        trade_marks: vec![],
    }
}

fn new_app() -> App<f64> {
    App::new(presets(), empty_paper())
}

fn clamp_strength(s: f64) -> f64 {
    if !s.is_finite() {
        return 0.0;
    }
    s.clamp(0.0, 1.0)
}

fn default_strength_for_type(t: &str) -> f64 {
    match t {
        "ma" => DEFAULT_MA_STRENGTH,
        "session_vp" | "fixed_range_vp" | "anchored_vp" => DEFAULT_VP_STRENGTH,
        _ => DEFAULT_OVERLAY_STRENGTH,
    }
}

/// Overlay strength for a type: stored style, else the product default.
fn overlay_strength(chart: &Chart<f64>, t: &str) -> f64 {
    chart
        .type_style_for(t)
        .map(|s| clamp_strength(s.overlay_strength))
        .unwrap_or_else(|| default_strength_for_type(t))
}

fn style_get<'a>(styles: &'a [(String, IndicatorTypeStyle<f64>)], key: &str) -> Option<&'a IndicatorTypeStyle<f64>> {
    styles.iter().find(|(k, _)| k == key).map(|(_, s)| s)
}

fn open_type_style(app: &mut App<f64>) {
    let strength = match app.selected_available_kind() {
        Some(kind) => overlay_strength(app.focused_chart(), &kind.key()),
        None => 0.0,
    };
    app.indicator_open_type_style(strength);
}

fn type_style_nudge(app: &mut App<f64>, steps: i32) {
    if let Some(edit) = app.type_style_edit.as_mut() {
        edit.strength = clamp_strength(edit.strength + steps as f64 * TYPE_STYLE_STRENGTH_STEP);
    }
}

fn submit(app: &mut App<f64>) {
    let f = &app.order_side;
    let (q, l, s) = (f.qty > 0.0, f.limit > 0.0, f.stop > 0.0);
    app.paper_submit(q, l, s);
}

fn paper_nudge_qty(app: &mut App<f64>, steps: i32) {
    if !matches!(app.input_mode, InputMode::PaperPanel) || steps == 0 {
        return;
    }
    let next = app.order_side.qty + f64::from(steps) * ORDER_QTY_STEP;
    app.order_side.qty = if next < ORDER_QTY_STEP { ORDER_QTY_STEP } else { next };
}

fn paper_nudge_price(app: &mut App<f64>, steps: i32) {
    if !matches!(app.input_mode, InputMode::PaperPanel) || steps == 0 {
        return;
    }
    match app.order_side.kind {
        WorkingOrderKind::Limit => {
            let next = app.order_side.limit + f64::from(steps) * ORDER_PRICE_STEP;
            app.order_side.limit = if next < ORDER_PRICE_STEP { ORDER_PRICE_STEP } else { next };
        }
        WorkingOrderKind::Stop => {
            let next = app.order_side.stop + f64::from(steps) * ORDER_PRICE_STEP;
            app.order_side.stop = if next < ORDER_PRICE_STEP { ORDER_PRICE_STEP } else { next };
        }
        WorkingOrderKind::Market => {}
    }
}

fn sample_bars(n: usize, start_ts: i64, period: i64) -> Vec<OhlcvBar<f64>> {
    (0..n)
        .map(|i| {
            let px = 100.0 + i as f64;
            OhlcvBar {
                ts: start_ts + i as i64 * period,
                open: px,
                high: px + 1.0,
                low: px - 1.0,
                close: px,
                volume: 1_000.0,
            }
        })
        .collect()
}

fn app_with_available_bars(bars: Vec<OhlcvBar<f64>>) -> App<f64> {
    let mut app = new_app();
    app.enter_workspace();
    app.apply_chart_series(ChartInterestResponse {
        instrument: "SPY".into(),
        timeframe: "1D".into(),
        status: "ok".into(),
        bars,
        chart_id: Some("primary".into()),
        indicators: vec![],
        series: vec![],
    });
    app
}

#[test]
fn pan_left_moves_over_loaded_bars_and_clamps_at_oldest() {
    let bars = sample_bars(5, 1_000, 60);
    let mut app = app_with_available_bars(bars.clone());
    assert_eq!(app.chart().pan_cursor_ts, None);
    assert!(!app.chart().pan_at_oldest);

    app.pan_focused_chart(-1);
    assert_eq!(app.chart().pan_cursor_ts, Some(bars[3].ts));
    assert!(!app.chart().pan_at_oldest);

    app.pan_focused_chart(-1);
    assert_eq!(app.chart().pan_cursor_ts, Some(bars[2].ts));

    // Jump past the left wall — clamp at oldest loaded bar.
    app.pan_focused_chart(-100);
    assert_eq!(app.chart().pan_cursor_ts, Some(bars[0].ts));
    assert!(app.chart().pan_at_oldest);

    // Further left stays clamped; soft-hint flag remains.
    app.pan_focused_chart(-1);
    assert_eq!(app.chart().pan_cursor_ts, Some(bars[0].ts));
    assert!(app.chart().pan_at_oldest);
}

#[test]
fn pan_right_to_tip_reattaches_live() {
    let bars = sample_bars(4, 1_000, 60);
    let mut app = app_with_available_bars(bars.clone());
    app.pan_focused_chart(-2);
    assert_eq!(app.chart().pan_cursor_ts, Some(bars[1].ts));

    app.pan_focused_chart(1);
    assert_eq!(app.chart().pan_cursor_ts, Some(bars[2].ts));
    assert!(!app.chart().pan_at_oldest);

    // Reach newest loaded bar → clear cursor so live updates stick to the tip.
    app.pan_focused_chart(1);
    assert_eq!(app.chart().pan_cursor_ts, None);
    assert!(!app.chart().pan_at_oldest);

    // Extra right stays live-attached.
    app.pan_focused_chart(5);
    assert_eq!(app.chart().pan_cursor_ts, None);
}

#[test]
fn pan_is_independent_per_dual_chart() {
    let mut app = new_app();
    app.enter_workspace();
    app.apply_workspace(WorkspaceSnapshot {
        layout_mode: "dual-vertical".into(),
        charts: vec![
            WorkspaceChartSnapshot {
                id: "top".into(),
                instrument: "QQQ".into(),
                timeframe: "1D".into(),
                indicators: vec![],
                type_styles: vec![],
            },
            WorkspaceChartSnapshot {
                id: "bottom".into(),
                instrument: "SPY".into(),
                timeframe: "1D".into(),
                indicators: vec![],
                type_styles: vec![],
            },
        ],
        watchlists: vec![],
        active_watchlist_id: String::new(),
    });
    let top_bars = sample_bars(5, 2_000, 60);
    let bottom_bars = sample_bars(5, 3_000, 60);
    app.apply_chart_series(ChartInterestResponse {
        instrument: "QQQ".into(),
        timeframe: "1D".into(),
        status: "ok".into(),
        bars: top_bars.clone(),
        chart_id: Some("top".into()),
        indicators: vec![],
        series: vec![],
    });
    app.apply_chart_series(ChartInterestResponse {
        instrument: "SPY".into(),
        timeframe: "1D".into(),
        status: "ok".into(),
        bars: bottom_bars.clone(),
        chart_id: Some("bottom".into()),
        indicators: vec![],
        series: vec![],
    });
    assert_eq!(app.focused, 0);
    app.pan_focused_chart(-2);
    assert_eq!(app.charts[0].pan_cursor_ts, Some(top_bars[2].ts));
    assert_eq!(app.charts[1].pan_cursor_ts, None);

    app.focus_next();
    assert_eq!(app.focused, 1);
    app.pan_focused_chart(-1);
    assert_eq!(app.charts[0].pan_cursor_ts, Some(top_bars[2].ts));
    assert_eq!(app.charts[1].pan_cursor_ts, Some(bottom_bars[3].ts));
}

#[test]
fn pan_noop_when_indicator_panel_open() {
    let bars = sample_bars(5, 1_000, 60);
    let mut app = app_with_available_bars(bars);
    app.input_mode = InputMode::IndicatorPanel;
    app.pan_focused_chart(-1);
    assert_eq!(app.chart().pan_cursor_ts, None);
}

#[test]
fn watchlist_nav_blocked_when_indicator_panel_open() {
    let mut app = new_app();
    app.enter_workspace();
    app.apply_workspace(WorkspaceSnapshot {
        layout_mode: "single".into(),
        charts: vec![WorkspaceChartSnapshot {
            id: "primary".into(),
            instrument: "SPY".into(),
            timeframe: "1D".into(),
            indicators: vec![],
            type_styles: vec![],
        }],
        watchlists: vec![WatchlistSnapshot {
            id: "wl1".into(),
            name: "Core".into(),
            symbols: vec!["SPY".into(), "QQQ".into(), "IWM".into()],
        }],
        active_watchlist_id: "wl1".into(),
    });
    app.watchlist_visible = true;
    app.watchlist_selected = 0;
    app.input_mode = InputMode::IndicatorPanel;

    app.watchlist_select_delta(1);
    assert_eq!(
        app.watchlist_selected, 0,
        "↑↓ must not move watchlist under panel"
    );
    assert!(!app.load_selected_watchlist_symbol());
    assert_eq!(app.focused_chart().instrument, "SPY");
}

#[test]
fn pin_placement_left_right_moves_pin_not_pan() {
    let bars = sample_bars(5, 1_000, 60);
    let mut app = app_with_available_bars(bars);
    // Simulate FRVP pin placement mode (owns ← →).
    app.input_mode = InputMode::FrvpPlacing;
    app.frvp_place = Some(FrvpPlaceState {
        chart_id: "primary".into(),
        indicator_id: "frvp-1".into(),
        phase: FrvpPinPhase::Start,
        cursor_bar: 2,
        start_bar: None,
        is_new: true,
    });

    app.pan_focused_chart(-1);
    assert_eq!(
        app.chart().pan_cursor_ts,
        None,
        "pan must no-op in pin mode"
    );

    app.frvp_place_move(-1);
    assert_eq!(
        app.frvp_place.as_ref().map(|p| p.cursor_bar),
        Some(1),
        "← moves pin cursor"
    );
    assert_eq!(app.chart().pan_cursor_ts, None);
}



#[test]
fn live_bar_update_keeps_panned_cursor() {
    let bars = sample_bars(3, 1_000, 60);
    let mut app = app_with_available_bars(bars.clone());
    app.pan_focused_chart(-1);
    let pinned = app.chart().pan_cursor_ts;
    assert_eq!(pinned, Some(bars[1].ts));

    app.apply_bar_update(BarUpdateEvent {
        instrument: "SPY".into(),
        timeframe: "1D".into(),
        completed_bars: vec![],
        bar: OhlcvBar {
            ts: bars[2].ts,
            open: 999.0,
            high: 1000.0,
            low: 998.0,
            close: 999.5,
            volume: 50.0,
        },
    });
    // Still panned away from tip — cursor unchanged while series tip updates.
    assert_eq!(app.chart().pan_cursor_ts, pinned);
    match &app.chart().series {
        ChartSeriesState::Available { bars: b } => assert_eq!(b[2].close, 999.5),
        other => panic!("expected Available, got {other:?}"),
    }
}


#[test]
fn type_styles_keep_one_entry_per_type() {
    let mut app = new_app();
    app.enter_workspace();
    app.set_chart_overlay_strength("primary", "ma", IndicatorTypeStyle { overlay_strength: 0.33 });
    app.set_chart_overlay_strength("primary", "session_vp", IndicatorTypeStyle { overlay_strength: 0.5 });
    app.set_chart_overlay_strength("primary", "ma", IndicatorTypeStyle { overlay_strength: 0.7 });
    let keys: Vec<&str> = app.charts[0].type_styles.iter().map(|(k, _)| k.as_str()).collect();
    assert_eq!(keys, ["ma", "session_vp"]);
    assert_eq!(overlay_strength(&app.charts[0], "ma"), 0.7);
    assert_eq!(overlay_strength(&app.charts[0], "session_vp"), 0.5);
}

#[test]
fn set_chart_overlay_strength_arms_engine_persist() {
    let mut app = new_app();
    app.enter_workspace();
    app.set_chart_overlay_strength("primary", "ma", IndicatorTypeStyle { overlay_strength: 0.33 });
    assert_eq!(overlay_strength(&app.charts[0], "ma"), 0.33);
    let pending = app.pending_type_styles.expect("armed");
    assert_eq!(pending.chart_id, "primary");
    assert_eq!(
        style_get(&pending.type_styles, "ma").map(|s| s.overlay_strength),
        Some(0.33)
    );
}

#[test]
fn apply_workspace_restores_type_styles() {
    let mut styles = vec![];
    styles.push(("ma".to_string(), IndicatorTypeStyle { overlay_strength: 0.55 }));
    let mut app = new_app();
    app.apply_workspace(WorkspaceSnapshot {
        layout_mode: "single".into(),
        charts: vec![WorkspaceChartSnapshot {
            id: "primary".into(),
            instrument: "SPY".into(),
            timeframe: "1D".into(),
            indicators: vec![],
            type_styles: styles,
        }],
        watchlists: vec![],
        active_watchlist_id: String::new(),
    });
    assert_eq!(overlay_strength(&app.charts[0], "ma"), 0.55);
    assert_eq!(
        overlay_strength(&app.charts[0], "session_vp"),
        DEFAULT_VP_STRENGTH
    );
    assert_eq!(app.charts[0].type_styles.len(), 1);
    assert!(app.charts[0].indicator_series.is_empty());
}

#[test]
fn welcome_enters_workspace_with_default_spy_1d() {
    let mut app = new_app();
    assert_eq!(app.screen, Screen::Welcome);
    assert_eq!(app.layout, LayoutMode::Single);
    assert_eq!(app.chart().instrument, "SPY");
    assert_eq!(app.chart().timeframe, "1D");
    app.enter_workspace();
    assert_eq!(app.screen, Screen::Workspace);
    assert!(app.needs_chart_load);
    assert_eq!(app.chart().series, ChartSeriesState::Loading);
}

#[test]
fn help_overlay_toggles_without_changing_input_mode() {
    let mut app = new_app();
    app.enter_workspace();
    app.input_mode = InputMode::IndicatorPanel;
    assert!(!app.help_open);
    app.toggle_help();
    assert!(app.help_open);
    assert_eq!(app.input_mode, InputMode::IndicatorPanel);
    app.close_help();
    assert!(!app.help_open);
    assert_eq!(app.input_mode, InputMode::IndicatorPanel);
}

#[test]
fn snapshot_marks_connected_feed_with_fake_vendor() {
    let mut app = new_app();
    app.apply_ipc(IpcEvent::Snapshot {
        feed: FeedSnapshot {
            status: "connected".into(),
            vendor_mode: "fake".into(),
            engine: "up".into(),
            last_vendor_tick_ts: None,
        },
        workspace: None,
        quotes: vec![],
        indicators: vec![],
        paper: empty_paper(),
    });
    assert_eq!(app.connection, ConnectionStatus::Connected);
    assert_eq!(app.vendor_mode_label(), "fake");
    assert_eq!(app.last_vendor_tick_ts, None);
}

#[test]
fn snapshot_and_heartbeat_record_last_vendor_tick_ts() {
    let mut app = new_app();
    app.apply_ipc(IpcEvent::Snapshot {
        feed: FeedSnapshot {
            status: "connected".into(),
            vendor_mode: "lse".into(),
            engine: "up".into(),
            last_vendor_tick_ts: Some(1_719_790_800.0),
        },
        workspace: None,
        quotes: vec![],
        indicators: vec![],
        paper: empty_paper(),
    });
    assert_eq!(app.last_vendor_tick_ts, Some(1_719_790_800.0));

    app.apply_ipc(IpcEvent::Heartbeat {
        ts: 1_719_792_400.0,
        last_vendor_tick_ts: Some(1_719_790_830.0),
    });
    assert_eq!(app.last_heartbeat_ts, Some(1_719_792_400.0));
    assert_eq!(app.last_vendor_tick_ts, Some(1_719_790_830.0));
    assert_eq!(
        app.feed.as_ref().and_then(|f| f.last_vendor_tick_ts),
        Some(1_719_790_830.0)
    );
}

#[test]
fn disconnect_event_marks_disconnected() {
    let mut app = new_app();
    app.apply_ipc(IpcEvent::Disconnected {
        reason: "engine down".into(),
    });
    assert!(matches!(
        app.connection,
        ConnectionStatus::Disconnected { .. }
    ));
    assert_eq!(app.connection.label(), "disconnected");
}

#[test]
fn available_series_stores_bars() {
    let mut app = new_app();
    app.enter_workspace();
    app.apply_chart_series(ChartInterestResponse {
        instrument: "SPY".into(),
        timeframe: "1D".into(),
        status: "ok".into(),
        bars: vec![OhlcvBar {
            ts: 1_719_792_000,
            open: 540.0,
            high: 541.0,
            low: 539.0,
            close: 540.5,
            volume: 1_000_000.0,
        }],
        chart_id: Some("primary".into()),
        indicators: vec![],
        series: vec![],
    });
    match &app.chart().series {
        ChartSeriesState::Available { bars } => {
            assert_eq!(bars.len(), 1);
            assert_eq!(bars[0].close, 540.5);
        }
        other => panic!("expected Available, got {other:?}"),
    }
    assert!(app.empty_state_copy().is_none());
}

#[test]
fn unavailable_series_uses_exact_empty_state_copy() {
    let mut app = new_app();
    app.enter_workspace();
    app.apply_chart_series(ChartInterestResponse {
        instrument: "SPY".into(),
        timeframe: "1D".into(),
        status: "unavailable".into(),
        bars: vec![],
        chart_id: Some("primary".into()),
        indicators: vec![],
        series: vec![],
    });
    assert_eq!(app.chart().series, ChartSeriesState::Unavailable);
    assert_eq!(app.empty_state_copy(), Some("Data Currently not Available"));
}

#[test]
fn ignores_series_for_other_instrument() {
    let mut app = new_app();
    app.enter_workspace();
    app.apply_chart_series(ChartInterestResponse {
        instrument: "QQQ".into(),
        timeframe: "1D".into(),
        status: "ok".into(),
        bars: vec![OhlcvBar {
            ts: 1,
            open: 1.0,
            high: 1.0,
            low: 1.0,
            close: 1.0,
            volume: 1.0,
        }],
        chart_id: Some("other".into()),
        indicators: vec![],
        series: vec![],
    });
    assert_eq!(app.chart().series, ChartSeriesState::Loading);
}

#[test]
fn bar_update_mutates_last_bar_close() {
    let mut app = new_app();
    app.enter_workspace();
    app.apply_chart_series(ChartInterestResponse {
        instrument: "SPY".into(),
        timeframe: "1D".into(),
        status: "ok".into(),
        bars: vec![OhlcvBar {
            ts: 1_720_569_600,
            open: 546.25,
            high: 548.5,
            low: 545.75,
            close: 548.0,
            volume: 50_900_000.0,
        }],
        chart_id: Some("primary".into()),
        indicators: vec![],
        series: vec![],
    });
    app.apply_bar_update(BarUpdateEvent {
        instrument: "SPY".into(),
        timeframe: "1D".into(),
        completed_bars: vec![],
        bar: OhlcvBar {
            ts: 1_720_569_600,
            open: 546.25,
            high: 549.25,
            low: 545.75,
            close: 549.25,
            volume: 50_910_000.0,
        },
    });
    match &app.chart().series {
        ChartSeriesState::Available { bars } => {
            assert_eq!(bars.len(), 1);
            assert_eq!(bars[0].close, 549.25);
            assert_eq!(bars[0].high, 549.25);
            assert_eq!(bars[0].volume, 50_910_000.0);
        }
        other => panic!("expected Available, got {other:?}"),
    }
}

#[test]
fn bar_update_period_roll_appends_new_bar() {
    let mut app = new_app();
    app.enter_workspace();
    app.apply_chart_series(ChartInterestResponse {
        instrument: "SPY".into(),
        timeframe: "1D".into(),
        status: "ok".into(),
        bars: vec![OhlcvBar {
            ts: 1_720_569_600,
            open: 546.25,
            high: 548.5,
            low: 545.75,
            close: 548.0,
            volume: 50_900_000.0,
        }],
        chart_id: Some("primary".into()),
        indicators: vec![],
        series: vec![],
    });
    app.apply_bar_update(BarUpdateEvent {
        instrument: "SPY".into(),
        timeframe: "1D".into(),
        completed_bars: vec![OhlcvBar {
            ts: 1_720_569_600,
            open: 546.25,
            high: 548.5,
            low: 545.75,
            close: 548.0,
            volume: 50_900_000.0,
        }],
        bar: OhlcvBar {
            ts: 1_720_569_600 + 86_400,
            open: 550.0,
            high: 550.0,
            low: 550.0,
            close: 550.0,
            volume: 5_000.0,
        },
    });
    match &app.chart().series {
        ChartSeriesState::Available { bars } => {
            assert_eq!(bars.len(), 2);
            assert_eq!(bars[0].close, 548.0);
            assert_eq!(bars[1].ts, 1_720_569_600 + 86_400);
            assert_eq!(bars[1].close, 550.0);
        }
        other => panic!("expected Available, got {other:?}"),
    }
}

#[test]
fn bar_update_ignores_other_instrument() {
    let mut app = new_app();
    app.enter_workspace();
    app.apply_chart_series(ChartInterestResponse {
        instrument: "SPY".into(),
        timeframe: "1D".into(),
        status: "ok".into(),
        bars: vec![OhlcvBar {
            ts: 1,
            open: 1.0,
            high: 1.0,
            low: 1.0,
            close: 1.0,
            volume: 1.0,
        }],
        chart_id: Some("primary".into()),
        indicators: vec![],
        series: vec![],
    });
    app.apply_bar_update(BarUpdateEvent {
        instrument: "QQQ".into(),
        timeframe: "1D".into(),
        completed_bars: vec![],
        bar: OhlcvBar {
            ts: 1,
            open: 9.0,
            high: 9.0,
            low: 9.0,
            close: 9.0,
            volume: 9.0,
        },
    });
    match &app.chart().series {
        ChartSeriesState::Available { bars } => assert_eq!(bars[0].close, 1.0),
        other => panic!("expected Available, got {other:?}"),
    }
}

#[test]
fn v1_timeframes_are_exactly_the_product_set() {
    assert_eq!(
        v1_timeframes_list(),
        ["1m", "3m", "5m", "15m", "30m", "1h", "4h", "1D", "1W"]
    );
}

#[test]
fn cycle_timeframe_next_from_1d_goes_to_1w_then_wraps_to_1m() {
    let mut app = new_app();
    app.enter_workspace();
    app.chart_load_started();
    app.apply_chart_series(ChartInterestResponse {
        instrument: "SPY".into(),
        timeframe: "1D".into(),
        status: "ok".into(),
        bars: vec![],
        chart_id: Some("primary".into()),
        indicators: vec![],
        series: vec![],
    });
    assert_eq!(app.chart().timeframe, "1D");

    app.cycle_timeframe(1);
    assert_eq!(app.chart().timeframe, "1W");
    assert!(app.needs_chart_load);
    assert_eq!(app.chart().series, ChartSeriesState::Loading);

    app.chart_load_started();
    app.cycle_timeframe(1);
    assert_eq!(app.chart().timeframe, "1m");
}

#[test]
fn cycle_timeframe_prev_from_1d_goes_to_4h() {
    let mut app = new_app();
    app.enter_workspace();
    app.chart_load_started();

    app.cycle_timeframe(-1);
    assert_eq!(app.chart().timeframe, "4h");
    assert!(app.needs_chart_load);
}

#[test]
fn set_instrument_reloads_history_and_normalizes_symbol() {
    let mut app = new_app();
    app.enter_workspace();
    app.chart_load_started();
    app.apply_chart_series(ChartInterestResponse {
        instrument: "SPY".into(),
        timeframe: "1D".into(),
        status: "ok".into(),
        bars: vec![OhlcvBar {
            ts: 1,
            open: 1.0,
            high: 1.0,
            low: 1.0,
            close: 1.0,
            volume: 1.0,
        }],
        chart_id: Some("primary".into()),
        indicators: vec![],
        series: vec![],
    });

    assert!(app.set_instrument("qqq"));
    assert_eq!(app.chart().instrument, "QQQ");
    assert_eq!(app.chart().timeframe, "1D");
    assert!(app.needs_chart_load);
    assert_eq!(app.chart().series, ChartSeriesState::Loading);
}

#[test]
fn set_instrument_same_symbol_is_noop() {
    let mut app = new_app();
    app.enter_workspace();
    app.chart_load_started();
    assert!(!app.set_instrument("SPY"));
    assert!(!app.needs_chart_load);
}

#[test]
fn set_instrument_rejects_empty() {
    let mut app = new_app();
    app.enter_workspace();
    app.chart_load_started();
    assert!(!app.set_instrument("   "));
    assert_eq!(app.chart().instrument, "SPY");
    assert!(!app.needs_chart_load);
}

#[test]
fn instrument_prompt_apply_changes_focused_chart() {
    let mut app = new_app();
    app.enter_workspace();
    app.chart_load_started();

    app.begin_instrument_prompt();
    assert!(matches!(app.input_mode, InputMode::InstrumentPrompt { .. }));
    app.prompt_push_char('e');
    app.prompt_push_char('s');
    assert!(app.apply_instrument_prompt());
    assert_eq!(app.input_mode, InputMode::Normal);
    assert_eq!(app.chart().instrument, "ES");
    assert!(app.needs_chart_load);
}

#[test]
fn instrument_prompt_cancel_restores_normal_mode() {
    let mut app = new_app();
    app.enter_workspace();
    app.chart_load_started();
    app.begin_instrument_prompt();
    app.prompt_push_char('x');
    app.cancel_instrument_prompt();
    assert_eq!(app.input_mode, InputMode::Normal);
    assert_eq!(app.chart().instrument, "SPY");
    assert!(!app.needs_chart_load);
}

#[test]
fn cycle_timeframe_ignored_during_instrument_prompt() {
    let mut app = new_app();
    app.enter_workspace();
    app.chart_load_started();
    app.begin_instrument_prompt();
    app.cycle_timeframe(1);
    assert_eq!(app.chart().timeframe, "1D");
    assert!(!app.needs_chart_load);
}

#[test]
fn chart_load_error_for_stale_interest_is_ignored() {
    let mut app = new_app();
    app.enter_workspace();
    app.set_instrument("QQQ");
    app.chart_load_started();
    app.apply_chart_series(ChartInterestResponse {
        instrument: "QQQ".into(),
        timeframe: "1D".into(),
        status: "ok".into(),
        bars: vec![OhlcvBar {
            ts: 1,
            open: 1.0,
            high: 1.0,
            low: 1.0,
            close: 1.0,
            volume: 1.0,
        }],
        chart_id: Some("primary".into()),
        indicators: vec![],
        series: vec![],
    });
    // Late failure from previous SPY interest must not clobber QQQ.
    app.apply_chart_load_error("primary", "SPY", "1D", "timeout".into());
    match &app.chart().series {
        ChartSeriesState::Available { bars } => assert_eq!(bars[0].close, 1.0),
        other => panic!("expected Available, got {other:?}"),
    }
}

#[test]
fn snapshot_workspace_restored_on_enter_workspace() {
    let mut app = new_app();
    app.apply_ipc(IpcEvent::Snapshot {
        feed: FeedSnapshot {
            status: "connected".into(),
            vendor_mode: "fake".into(),
            engine: "up".into(),
            last_vendor_tick_ts: None,
        },
        workspace: Some(WorkspaceSnapshot {
            layout_mode: "dual-vertical".into(),
            charts: vec![
                WorkspaceChartSnapshot {
                    id: "top".into(),
                    instrument: "ES".into(),
                    timeframe: "1D".into(),
                    indicators: vec![],
                    type_styles: vec![],
                },
                WorkspaceChartSnapshot {
                    id: "bottom".into(),
                    instrument: "QQQ".into(),
                    timeframe: "1h".into(),
                    indicators: vec![],
                    type_styles: vec![],
                },
            ],
            watchlists: vec![
                WatchlistSnapshot {
                    id: "core".into(),
                    name: "Core".into(),
                    symbols: vec!["SPY".into(), "QQQ".into()],
                },
                WatchlistSnapshot {
                    id: "focus".into(),
                    name: "Focus".into(),
                    symbols: vec![],
                },
            ],
            active_watchlist_id: "core".into(),
        }),
        quotes: vec![QuoteRow {
            symbol: "SPY".into(),
            status: "ok".into(),
            last: Some(548.0),
            previous_close: Some(546.25),
            change: Some(1.75),
            change_pct: Some(1.75 / 546.25),
        }],
        indicators: vec![],
        paper: empty_paper(),
    });
    // Still on Welcome with defaults until Enter.
    assert_eq!(app.screen, Screen::Welcome);
    assert_eq!(app.layout, LayoutMode::Single);

    app.enter_workspace();
    assert_eq!(app.layout, LayoutMode::DualVertical);
    assert_eq!(app.charts.len(), 2);
    assert_eq!(app.charts[0].id, "top");
    assert_eq!(app.charts[0].instrument, "ES");
    assert_eq!(app.charts[0].timeframe, "1D");
    assert_eq!(app.charts[1].id, "bottom");
    assert_eq!(app.charts[1].instrument, "QQQ");
    assert_eq!(app.charts[1].timeframe, "1h");
    assert!(app.needs_chart_load);
    assert_eq!(app.active_watchlist_id, "core");
    assert_eq!(
        app.active_symbols(),
        &["SPY".to_string(), "QQQ".to_string()]
    );
    assert_eq!(app.quote_for("SPY").map(|q| q.last), Some(Some(548.0)));
}

#[test]
fn toggle_layout_arms_pending_layout() {
    let mut app = new_app();
    app.enter_workspace();
    app.chart_load_started();
    app.toggle_layout();
    assert_eq!(app.pending_layout, Some(LayoutMode::DualVertical));
    app.layout_request_started();
    assert!(app.pending_layout.is_none());
}

#[test]
fn workspace_event_applies_dual_defaults() {
    let mut app = new_app();
    app.enter_workspace();
    app.chart_load_started();
    app.apply_ipc(IpcEvent::Workspace(dual_workspace()));
    assert_eq!(app.layout, LayoutMode::DualVertical);
    assert_eq!(app.charts[0].instrument, "QQQ");
    assert_eq!(app.charts[1].instrument, "SPY");
    assert!(app.needs_chart_load);
}

#[test]
fn focus_next_cycles_dual_charts() {
    let mut app = new_app();
    app.enter_workspace();
    app.apply_workspace(dual_workspace());
    assert_eq!(app.focused, 0);
    app.focus_next();
    assert_eq!(app.focused, 1);
    assert_eq!(app.focused_chart().id, "bottom");
    app.focus_next();
    assert_eq!(app.focused, 0);
}

#[test]
fn set_instrument_only_changes_focused_dual_chart() {
    let mut app = new_app();
    app.enter_workspace();
    app.apply_workspace(dual_workspace());
    app.chart_load_started();
    app.focus_next(); // bottom
    assert!(app.set_instrument("ES"));
    assert_eq!(app.charts[0].instrument, "QQQ");
    assert_eq!(app.charts[1].instrument, "ES");
}

fn core_watchlist_workspace() -> WorkspaceSnapshot<f64> {
    WorkspaceSnapshot {
        layout_mode: "single".into(),
        charts: vec![WorkspaceChartSnapshot {
            id: "primary".into(),
            instrument: "SPY".into(),
            timeframe: "1h".into(),
            indicators: vec![],
            type_styles: vec![],
        }],
        watchlists: vec![
            WatchlistSnapshot {
                id: "core".into(),
                name: "Core".into(),
                symbols: vec!["ES".into(), "NQ".into(), "SPY".into()],
            },
            WatchlistSnapshot {
                id: "focus".into(),
                name: "Focus".into(),
                symbols: vec!["QQQ".into()],
            },
        ],
        active_watchlist_id: "core".into(),
    }
}

#[test]
fn load_selected_watchlist_symbol_sets_focused_instrument_keeps_tf_and_indicators() {
    let mut app = new_app();
    app.enter_workspace();
    app.apply_workspace(core_watchlist_workspace());
    app.chart_load_started();
    // Seed indicators on focused chart — must survive symbol switch.
    app.input_mode = InputMode::IndicatorPanel;
    app.indicator_add_default_ma_stack();
    app.input_mode = InputMode::Normal;
    let indicator_ids: Vec<String> = app
        .focused_chart()
        .indicators
        .iter()
        .map(|i| i.id.clone())
        .collect();
    assert!(!indicator_ids.is_empty());
    assert_eq!(app.focused_chart().timeframe, "1h");
    assert_eq!(app.focused_chart().instrument, "SPY");

    app.watchlist_selected = 0; // ES
    assert!(app.load_selected_watchlist_symbol());
    assert_eq!(app.focused_chart().instrument, "ES");
    assert_eq!(app.focused_chart().timeframe, "1h");
    let after: Vec<String> = app
        .focused_chart()
        .indicators
        .iter()
        .map(|i| i.id.clone())
        .collect();
    assert_eq!(after, indicator_ids);
    assert!(app.needs_chart_load);
}

#[test]
fn load_selected_watchlist_symbol_only_changes_focused_dual_chart() {
    let mut app = new_app();
    app.enter_workspace();
    app.apply_workspace(dual_workspace());
    // Attach a multi-list with symbols for selection.
    app.apply_workspace(WorkspaceSnapshot {
        layout_mode: "dual-vertical".into(),
        charts: vec![
            WorkspaceChartSnapshot {
                id: "top".into(),
                instrument: "QQQ".into(),
                timeframe: "1D".into(),
                indicators: vec![],
                type_styles: vec![],
            },
            WorkspaceChartSnapshot {
                id: "bottom".into(),
                instrument: "SPY".into(),
                timeframe: "1D".into(),
                indicators: vec![],
                type_styles: vec![],
            },
        ],
        watchlists: vec![WatchlistSnapshot {
            id: "core".into(),
            name: "Core".into(),
            symbols: vec!["ES".into(), "NQ".into()],
        }],
        active_watchlist_id: "core".into(),
    });
    app.chart_load_started();
    app.focus_next(); // bottom
    app.watchlist_selected = 0; // ES
    assert!(app.load_selected_watchlist_symbol());
    assert_eq!(app.charts[0].instrument, "QQQ");
    assert_eq!(app.charts[1].instrument, "ES");
}

#[test]
fn load_selected_watchlist_symbol_inactive_outside_normal_workspace_sidebar() {
    let mut app = new_app();
    app.enter_workspace();
    app.apply_workspace(core_watchlist_workspace());
    app.chart_load_started();
    app.watchlist_selected = 0;

    app.input_mode = InputMode::IndicatorPanel;
    assert!(!app.load_selected_watchlist_symbol());
    assert_eq!(app.focused_chart().instrument, "SPY");

    app.input_mode = InputMode::Normal;
    app.watchlist_visible = false;
    assert!(!app.load_selected_watchlist_symbol());
    assert_eq!(app.focused_chart().instrument, "SPY");

    app.watchlist_visible = true;
    app.input_mode = InputMode::FrvpPlacing;
    assert!(!app.load_selected_watchlist_symbol());

    app.input_mode = InputMode::WatchlistAddPrompt {
        buffer: String::new(),
    };
    assert!(!app.load_selected_watchlist_symbol());
}

#[test]
fn rename_prompt_arms_pending_rename_and_rejects_empty() {
    let mut app = new_app();
    app.enter_workspace();
    app.apply_workspace(core_watchlist_workspace());

    app.begin_watchlist_rename_prompt();
    assert!(matches!(
        app.input_mode,
        InputMode::WatchlistRenamePrompt { ref buffer } if buffer == "Core"
    ));

    // Clear to empty → reject, stay in prompt.
    if let InputMode::WatchlistRenamePrompt { buffer } = &mut app.input_mode {
        buffer.clear();
    }
    assert!(!app.apply_watchlist_rename_prompt());
    assert!(matches!(
        app.input_mode,
        InputMode::WatchlistRenamePrompt { .. }
    ));
    assert!(app.pending_watchlist.is_none());

    // Type a new name with spaces (preserve case).
    if let InputMode::WatchlistRenamePrompt { buffer } = &mut app.input_mode {
        buffer.clear();
    }
    for c in "Day desk".chars() {
        app.prompt_push_char(c);
    }
    assert!(app.apply_watchlist_rename_prompt());
    assert_eq!(app.input_mode, InputMode::Normal);
    assert_eq!(
        app.pending_watchlist,
        Some(PendingWatchlistOp::Rename {
            name: "Day desk".into()
        })
    );
}

#[test]
fn rename_prompt_inactive_when_indicator_panel_open() {
    let mut app = new_app();
    app.enter_workspace();
    app.apply_workspace(core_watchlist_workspace());
    app.input_mode = InputMode::IndicatorPanel;
    app.begin_watchlist_rename_prompt();
    assert_eq!(app.input_mode, InputMode::IndicatorPanel);
    assert!(app.pending_watchlist.is_none());
}

#[test]
fn apply_watchlist_state_updates_names_without_wiping_chart_series() {
    let mut app = new_app();
    app.enter_workspace();
    app.apply_workspace(core_watchlist_workspace());
    app.chart_load_started();
    app.apply_chart_series(ChartInterestResponse {
        instrument: "SPY".into(),
        timeframe: "1h".into(),
        status: "ok".into(),
        bars: vec![OhlcvBar {
            ts: 1,
            open: 1.0,
            high: 1.0,
            low: 1.0,
            close: 1.0,
            volume: 1.0,
        }],
        chart_id: Some("primary".into()),
        indicators: vec![],
        series: vec![],
    });
    assert!(matches!(
        app.focused_chart().series,
        ChartSeriesState::Available { .. }
    ));

    app.apply_watchlist_state(
        WorkspaceSnapshot {
            layout_mode: "single".into(),
            charts: vec![WorkspaceChartSnapshot {
                id: "primary".into(),
                instrument: "SPY".into(),
                timeframe: "1h".into(),
                indicators: vec![],
                type_styles: vec![],
            }],
            watchlists: vec![
                WatchlistSnapshot {
                    id: "core".into(),
                    name: "Day desk".into(),
                    symbols: vec!["ES".into(), "NQ".into(), "SPY".into()],
                },
                WatchlistSnapshot {
                    id: "focus".into(),
                    name: "Focus".into(),
                    symbols: vec![],
                },
            ],
            active_watchlist_id: "core".into(),
        },
        vec![],
    );
    assert_eq!(
        app.active_watchlist().map(|w| w.name.as_str()),
        Some("Day desk")
    );
    assert!(matches!(
        app.focused_chart().series,
        ChartSeriesState::Available { .. }
    ));
    assert_eq!(app.focused_chart().instrument, "SPY");
    assert_eq!(app.focused_chart().timeframe, "1h");
    assert!(!app.needs_chart_load);
}

#[test]
fn dual_bar_update_routes_to_matching_chart_only() {
    let mut app = new_app();
    app.enter_workspace();
    app.apply_workspace(dual_workspace());
    app.apply_chart_series(ChartInterestResponse {
        instrument: "QQQ".into(),
        timeframe: "1D".into(),
        status: "ok".into(),
        bars: vec![OhlcvBar {
            ts: 1,
            open: 1.0,
            high: 1.0,
            low: 1.0,
            close: 1.0,
            volume: 1.0,
        }],
        chart_id: Some("top".into()),
        indicators: vec![],
        series: vec![],
    });
    app.apply_chart_series(ChartInterestResponse {
        instrument: "SPY".into(),
        timeframe: "1D".into(),
        status: "ok".into(),
        bars: vec![OhlcvBar {
            ts: 1,
            open: 2.0,
            high: 2.0,
            low: 2.0,
            close: 2.0,
            volume: 2.0,
        }],
        chart_id: Some("bottom".into()),
        indicators: vec![],
        series: vec![],
    });
    app.apply_bar_update(BarUpdateEvent {
        instrument: "QQQ".into(),
        timeframe: "1D".into(),
        completed_bars: vec![],
        bar: OhlcvBar {
            ts: 1,
            open: 1.0,
            high: 3.0,
            low: 1.0,
            close: 3.0,
            volume: 10.0,
        },
    });
    match &app.charts[0].series {
        ChartSeriesState::Available { bars } => assert_eq!(bars[0].close, 3.0),
        other => panic!("top expected Available, got {other:?}"),
    }
    match &app.charts[1].series {
        ChartSeriesState::Available { bars } => assert_eq!(bars[0].close, 2.0),
        other => panic!("bottom expected Available, got {other:?}"),
    }
}

#[test]
fn toggle_watchlist_sidebar() {
    let mut app = new_app();
    app.enter_workspace();
    assert!(app.watchlist_visible);
    app.toggle_watchlist_sidebar();
    assert!(!app.watchlist_visible);
    app.toggle_watchlist_sidebar();
    assert!(app.watchlist_visible);
}

#[test]
fn cycle_watchlist_arms_set_active() {
    let mut app = new_app();
    app.enter_workspace();
    app.apply_workspace(WorkspaceSnapshot {
        layout_mode: "single".into(),
        charts: vec![WorkspaceChartSnapshot {
            id: "primary".into(),
            instrument: "SPY".into(),
            timeframe: "1D".into(),
            indicators: vec![],
            type_styles: vec![],
        }],
        watchlists: vec![
            WatchlistSnapshot {
                id: "core".into(),
                name: "Core".into(),
                symbols: vec!["SPY".into()],
            },
            WatchlistSnapshot {
                id: "focus".into(),
                name: "Focus".into(),
                symbols: vec!["QQQ".into()],
            },
        ],
        active_watchlist_id: "core".into(),
    });
    app.cycle_watchlist(1);
    assert_eq!(
        app.pending_watchlist,
        Some(PendingWatchlistOp::SetActive {
            watchlist_id: "focus".into()
        })
    );
}

#[test]
fn quote_update_mutates_last_and_change() {
    let mut app = new_app();
    app.enter_workspace();
    app.apply_quotes(vec![QuoteRow {
        symbol: "SPY".into(),
        status: "ok".into(),
        last: Some(548.0),
        previous_close: Some(546.25),
        change: Some(1.75),
        change_pct: Some(1.75 / 546.25),
    }]);
    app.apply_quote_update(QuoteUpdateEvent {
        symbol: "SPY".into(),
        status: "ok".into(),
        last: Some(550.0),
        previous_close: Some(546.25),
        change: Some(3.75),
        change_pct: Some(3.75 / 546.25),
    });
    let q = app.quote_for("SPY").expect("spy quote");
    assert_eq!(q.last, Some(550.0));
    assert_eq!(q.change, Some(3.75));
    assert!(q.change.unwrap() > 0.0);
}

#[test]
fn quotes_keep_one_row_per_symbol() {
    let row = |symbol: &str, last: f64| QuoteRow {
        symbol: symbol.into(),
        status: "ok".into(),
        last: Some(last),
        previous_close: None,
        change: None,
        change_pct: None,
    };
    let mut app = new_app();
    app.enter_workspace();
    app.apply_quotes(vec![row("SPY", 1.0), row("QQQ", 2.0), row("SPY", 3.0)]);
    assert_eq!(app.quotes.len(), 2);
    app.apply_quote_update(QuoteUpdateEvent {
        symbol: "QQQ".into(),
        status: "ok".into(),
        last: Some(4.0),
        previous_close: None,
        change: None,
        change_pct: None,
    });
    app.apply_quotes(vec![row("IWM", 5.0), row("IWM", 6.0)]);
    let symbols: Vec<&str> = app.quotes.iter().map(|q| q.symbol.as_str()).collect();
    assert_eq!(symbols, ["SPY", "QQQ", "IWM"]);
    assert_eq!(app.quote_for("SPY").unwrap().last, Some(3.0));
    assert_eq!(app.quote_for("QQQ").unwrap().last, Some(4.0));
    assert_eq!(app.quote_for("IWM").unwrap().last, Some(6.0));
}

#[test]
fn remove_selected_arms_remove_op() {
    let mut app = new_app();
    app.enter_workspace();
    app.apply_workspace(WorkspaceSnapshot {
        layout_mode: "single".into(),
        charts: vec![WorkspaceChartSnapshot {
            id: "primary".into(),
            instrument: "SPY".into(),
            timeframe: "1D".into(),
            indicators: vec![],
            type_styles: vec![],
        }],
        watchlists: vec![WatchlistSnapshot {
            id: "core".into(),
            name: "Core".into(),
            symbols: vec!["ES".into(), "SPY".into()],
        }],
        active_watchlist_id: "core".into(),
    });
    app.watchlist_selected = 1;
    app.remove_selected_watchlist_symbol();
    assert_eq!(
        app.pending_watchlist,
        Some(PendingWatchlistOp::Remove {
            symbol: "SPY".into()
        })
    );
}

#[test]
fn cash_open_ny_july_2024_is_0930_edt() {
    // 2024-07-01 10:00 ET (EDT) → cash open same day 09:30 ET.
    let ten_am_et = 1_719_842_400_i64;
    let expected_cash = 1_719_840_600_i64; // 2024-07-01 09:30 ET
    assert_eq!(cash_open_ny(ten_am_et), expected_cash);
}

#[test]
fn anchored_vp_add_stays_in_panel_and_applies_with_cash_open() {
    let mut app = new_app();
    app.enter_workspace();
    app.chart_load_started();
    // 2024-07-01 10:00 ET bars so cash open 09:30 is on that day.
    let bars: Vec<OhlcvBar<f64>> = (0..5)
        .map(|i| OhlcvBar {
            ts: 1_719_842_400 + i * 60,
            open: 100.0,
            high: 101.0,
            low: 99.0,
            close: 100.5,
            volume: 1_000.0,
        })
        .collect();
    // Chart default is SPY@1D — interest response must match or bars are ignored.
    app.focused_chart_mut().timeframe = "1m".into();
    app.apply_chart_series(ChartInterestResponse {
        status: "ok".into(),
        instrument: "SPY".into(),
        timeframe: "1m".into(),
        chart_id: Some("primary".into()),
        bars: bars.clone(),
        indicators: vec![],
        series: vec![],
    });
    app.input_mode = InputMode::IndicatorPanel;
    app.indicator_add_anchored_vp();
    // Immediate apply — stay in panel; no forced pin mode.
    assert_eq!(app.input_mode, InputMode::IndicatorPanel);
    assert!(app.avp_place.is_none());
    let av = app
        .focused_chart()
        .indicators
        .iter()
        .find(|i| i.indicator_type.key() == "anchored_vp")
        .expect("avp added");
    assert!(av.enabled);
    assert_eq!(av.rows, Some(500));
    assert_eq!(av.anchor, Some(cash_open_ny(bars[0].ts)));
    assert!(app.pending_indicators.is_some());
}

#[test]
fn anchored_vp_re_pin_returns_to_panel_on_confirm() {
    let mut app = new_app();
    app.enter_workspace();
    app.chart_load_started();
    let bars: Vec<OhlcvBar<f64>> = (0..5)
        .map(|i| OhlcvBar {
            ts: 1_700_000_000 + i * 60,
            open: 100.0,
            high: 101.0,
            low: 99.0,
            close: 100.5,
            volume: 1_000.0,
        })
        .collect();
    app.apply_chart_series(ChartInterestResponse {
        status: "ok".into(),
        instrument: "SPY".into(),
        timeframe: "1D".into(),
        chart_id: Some("primary".into()),
        bars: bars.clone(),
        indicators: vec![],
        series: vec![],
    });
    app.input_mode = InputMode::IndicatorPanel;
    app.indicator_add_anchored_vp();
    app.pending_indicators = None;
    app.indicator_replace_avp_pin();
    assert_eq!(app.input_mode, InputMode::AvpPlacing);
    app.avp_place_move(-100);
    app.avp_place_move(2);
    app.avp_place_confirm();
    assert!(app.avp_place.is_none());
    assert_eq!(app.input_mode, InputMode::IndicatorPanel);
    let av = app
        .focused_chart()
        .indicators
        .iter()
        .find(|i| i.indicator_type.key() == "anchored_vp")
        .expect("avp still present");
    assert!(av.enabled);
    assert_eq!(av.anchor, Some(bars[2].ts));
    assert!(app.pending_indicators.is_some());
}

#[test]
fn clear_except_volume_keeps_only_volume() {
    let mut app = new_app();
    app.enter_workspace();
    app.input_mode = InputMode::IndicatorPanel;
    let chart = app.focused_chart_mut();
    chart
        .indicators
        .push(IndicatorConfig::ma("ma10".into(), "sma", 10));
    chart.indicators.push(IndicatorConfig::volume("volume".into()));
    chart
        .indicators
        .push(IndicatorConfig::session_vp_default("svp".into(), &presets()));
    chart
        .indicators
        .push(IndicatorConfig::anchored_vp_default("avp".into(), 1_700_000_000, &presets()));
    app.indicator_clear_except_volume();
    let inds = &app.focused_chart().indicators;
    assert_eq!(inds.len(), 1);
    assert_eq!(inds[0].indicator_type.key(), "volume");
    assert!(app.pending_indicators.is_some());
}

#[test]
fn fixed_range_vp_two_pin_placement_locks_start_then_end() {
    let mut app = new_app();
    app.enter_workspace();
    app.chart_load_started();
    let bars: Vec<OhlcvBar<f64>> = (0..5)
        .map(|i| OhlcvBar {
            ts: 1_700_000_000 + i * 60,
            open: 100.0,
            high: 101.0,
            low: 99.0,
            close: 100.5,
            volume: 1_000.0,
        })
        .collect();
    app.apply_chart_series(ChartInterestResponse {
        status: "ok".into(),
        instrument: "SPY".into(),
        timeframe: "1D".into(),
        chart_id: Some("primary".into()),
        bars: bars.clone(),
        indicators: vec![],
        series: vec![],
    });
    app.input_mode = InputMode::IndicatorPanel;
    app.indicator_add_fixed_range_vp();
    assert_eq!(app.input_mode, InputMode::FrvpPlacing);
    assert!(app.frvp_place.is_some());
    // New FRVP is disabled until both pins lock.
    let fr = app
        .focused_chart()
        .indicators
        .iter()
        .find(|i| i.indicator_type.key() == "fixed_range_vp")
        .expect("frvp added");
    assert!(!fr.enabled);
    assert!(app.pending_indicators.is_none());

    // Move to bar 1 and lock start.
    app.frvp_place_move(-100); // clamp to 0
    app.frvp_place_move(1);
    app.frvp_place_confirm();
    assert_eq!(
        app.frvp_place.as_ref().map(|p| p.phase),
        Some(FrvpPinPhase::End)
    );
    assert_eq!(app.frvp_place.as_ref().and_then(|p| p.start_bar), Some(1));

    // After start lock, cursor auto-advances one bar (to index 2); nudge once to 3.
    app.frvp_place_move(1);
    app.frvp_place_confirm();
    assert!(app.frvp_place.is_none());
    assert_eq!(app.input_mode, InputMode::IndicatorPanel);
    let fr = app
        .focused_chart()
        .indicators
        .iter()
        .find(|i| i.indicator_type.key() == "fixed_range_vp")
        .expect("frvp still present");
    assert!(fr.enabled);
    assert_eq!(fr.start, Some(bars[1].ts));
    assert_eq!(fr.end, Some(bars[3].ts));
    assert!(app.pending_indicators.is_some());
    let pending = app.pending_indicators.as_ref().unwrap();
    assert_eq!(pending.chart_id, "primary");
    assert!(
        pending
            .indicators
            .iter()
            .any(|i| i.indicator_type.key() == "fixed_range_vp" && i.enabled),
        "armed apply must include enabled FRVP"
    );
}

#[test]
fn frvp_survives_chart_interest_race_after_confirm() {
    // After both pins lock, a stale interest response without FRVP must not drop it.
    let mut app = new_app();
    app.enter_workspace();
    app.chart_load_started();
    let bars: Vec<OhlcvBar<f64>> = (0..8)
        .map(|i| OhlcvBar {
            ts: 1_700_000_000 + i * 60,
            open: 100.0,
            high: 101.0,
            low: 99.0,
            close: 100.5,
            volume: 1_000.0,
        })
        .collect();
    app.apply_chart_series(ChartInterestResponse {
        status: "ok".into(),
        instrument: "SPY".into(),
        timeframe: "1D".into(),
        chart_id: Some("primary".into()),
        bars: bars.clone(),
        indicators: vec![IndicatorConfig::volume("volume".into())],
        series: vec![],
    });
    app.input_mode = InputMode::IndicatorPanel;
    app.indicator_add_fixed_range_vp();
    app.frvp_place_move(-100);
    app.frvp_place_confirm(); // start
    app.frvp_place_move(3);
    app.frvp_place_confirm(); // end
    assert!(
        app.focused_chart()
            .indicators
            .iter()
            .any(|i| i.indicator_type.key() == "fixed_range_vp" && i.enabled)
    );

    // Stale interest: engine still only knows volume (POST not completed).
    app.apply_chart_series(ChartInterestResponse {
        status: "ok".into(),
        instrument: "SPY".into(),
        timeframe: "1D".into(),
        chart_id: Some("primary".into()),
        bars: bars.clone(),
        indicators: vec![IndicatorConfig::volume("volume".into())],
        series: vec![],
    });
    let fr = app
        .focused_chart()
        .indicators
        .iter()
        .find(|i| i.indicator_type.key() == "fixed_range_vp")
        .expect("FRVP must survive interest race");
    assert!(fr.enabled);
    assert!(fr.start.is_some() && fr.end.is_some());
}

#[test]
fn fixed_range_vp_cancel_drops_new_draft() {
    let mut app = new_app();
    app.enter_workspace();
    app.chart_load_started();
    app.apply_chart_series(ChartInterestResponse {
        status: "ok".into(),
        instrument: "SPY".into(),
        timeframe: "1D".into(),
        chart_id: Some("primary".into()),
        bars: vec![OhlcvBar {
            ts: 1,
            open: 1.0,
            high: 1.0,
            low: 1.0,
            close: 1.0,
            volume: 1.0,
        }],
        indicators: vec![],
        series: vec![],
    });
    app.input_mode = InputMode::IndicatorPanel;
    app.indicator_add_fixed_range_vp();
    assert_eq!(app.focused_chart().indicators.len(), 1);
    app.frvp_place_cancel();
    assert!(app.focused_chart().indicators.is_empty());
    assert_eq!(app.input_mode, InputMode::IndicatorPanel);
}

// --- Indicator panel Model 2 (Available | Current) -----------------------

#[test]
fn indicator_panel_opens_with_current_list_active() {
    let mut app = new_app();
    app.enter_workspace();
    app.indicator_list_side = IndicatorListSide::Available;
    app.toggle_indicator_panel();
    assert_eq!(app.input_mode, InputMode::IndicatorPanel);
    assert_eq!(app.indicator_list_side, IndicatorListSide::Current);
}

#[test]
fn indicator_tab_switches_available_and_current() {
    let mut app = new_app();
    app.enter_workspace();
    app.input_mode = InputMode::IndicatorPanel;
    assert_eq!(app.indicator_list_side, IndicatorListSide::Current);
    app.indicator_toggle_list_side();
    assert_eq!(app.indicator_list_side, IndicatorListSide::Available);
    app.indicator_toggle_list_side();
    assert_eq!(app.indicator_list_side, IndicatorListSide::Current);
}

#[test]
fn available_enter_adds_selected_type_respecting_max() {
    let mut app = new_app();
    app.enter_workspace();
    app.input_mode = InputMode::IndicatorPanel;
    app.indicator_list_side = IndicatorListSide::Available;
    // volume is catalog index 1
    app.indicator_available_selected = 1;
    app.indicator_activate_selected();
    assert_eq!(app.focused_chart().indicators.len(), 1);
    assert_eq!(app.focused_chart().indicators[0].indicator_type.key(), "volume");
    assert!(app.pending_indicators.is_some());
    // max 1 volume — second add is a no-op
    app.pending_indicators = None;
    app.indicator_activate_selected();
    assert_eq!(app.focused_chart().indicators.len(), 1);
    assert!(app.pending_indicators.is_none());
}

#[test]
fn available_ma_add_fills_default_stack_up_to_max() {
    let mut app = new_app();
    app.enter_workspace();
    app.input_mode = InputMode::IndicatorPanel;
    app.indicator_list_side = IndicatorListSide::Available;
    app.indicator_available_selected = 0; // ma
    app.indicator_activate_selected();
    let mas: Vec<_> = app
        .focused_chart()
        .indicators
        .iter()
        .filter(|i| i.indicator_type.key() == "ma")
        .collect();
    assert_eq!(mas.len(), MAX_MA_LINES);
    app.pending_indicators = None;
    app.indicator_activate_selected();
    assert_eq!(
        app.focused_chart()
            .indicators
            .iter()
            .filter(|i| i.indicator_type.key() == "ma")
            .count(),
        MAX_MA_LINES
    );
    assert!(app.pending_indicators.is_none());
}

#[test]
fn available_c_opens_type_style_confirm_persists_strength() {
    let mut app = new_app();
    app.enter_workspace();
    app.input_mode = InputMode::IndicatorPanel;
    app.indicator_list_side = IndicatorListSide::Available;
    app.indicator_available_selected = 0; // ma
    open_type_style(&mut app);
    let edit = app.type_style_edit.as_ref().expect("popup open");
    assert_eq!(edit.indicator_type, "ma");
    assert!((edit.strength - DEFAULT_MA_STRENGTH).abs() < 1e-9);

    type_style_nudge(&mut app, -4); // 0.05 * 4
    let draft = app.type_style_edit.as_ref().unwrap().strength;
    assert!((draft - (DEFAULT_MA_STRENGTH - 0.20)).abs() < 1e-9);
    // Cancel does not persist.
    app.type_style_cancel();
    assert!(app.type_style_edit.is_none());
    assert!((overlay_strength(app.focused_chart(), "ma") - DEFAULT_MA_STRENGTH).abs() < 1e-9);
    assert!(app.pending_type_styles.is_none());

    open_type_style(&mut app);
    type_style_nudge(&mut app, -4);
    app.type_style_confirm();
    assert!(app.type_style_edit.is_none());
    assert!(
        (overlay_strength(app.focused_chart(), "ma") - (DEFAULT_MA_STRENGTH - 0.20)).abs()
            < 1e-9
    );
    let pending = app.pending_type_styles.expect("armed for engine");
    assert_eq!(pending.chart_id, "primary");
    assert!(
        (style_get(&pending.type_styles, "ma")
            .map(|s| s.overlay_strength)
            .unwrap()
            - (DEFAULT_MA_STRENGTH - 0.20))
            .abs()
            < 1e-9
    );
}

#[test]
fn type_style_not_opened_from_current_list() {
    let mut app = new_app();
    app.enter_workspace();
    app.input_mode = InputMode::IndicatorPanel;
    app.indicator_list_side = IndicatorListSide::Current;
    open_type_style(&mut app);
    assert!(app.type_style_edit.is_none());
}

#[test]
fn current_activate_toggles_on_off_available_does_not() {
    let mut app = new_app();
    app.enter_workspace();
    app.input_mode = InputMode::IndicatorPanel;
    app.indicator_list_side = IndicatorListSide::Current;
    app.focused_chart_mut()
        .indicators
        .push(IndicatorConfig::volume("volume".into()));
    assert!(app.focused_chart().indicators[0].enabled);
    app.indicator_activate_selected();
    assert!(!app.focused_chart().indicators[0].enabled);

    // On Available, activate adds (not toggle of Current row).
    app.indicator_list_side = IndicatorListSide::Available;
    app.indicator_available_selected = 2; // session_vp
    app.indicator_activate_selected();
    assert!(
        app.focused_chart()
            .indicators
            .iter()
            .any(|i| i.indicator_type.key() == "session_vp")
    );
}

#[test]
fn clear_except_volume_only_on_current_side() {
    let mut app = new_app();
    app.enter_workspace();
    app.input_mode = InputMode::IndicatorPanel;
    let chart = app.focused_chart_mut();
    chart
        .indicators
        .push(IndicatorConfig::ma("ma10".into(), "sma", 10));
    chart.indicators.push(IndicatorConfig::volume("volume".into()));
    app.indicator_list_side = IndicatorListSide::Available;
    app.indicator_clear_except_volume();
    assert_eq!(app.focused_chart().indicators.len(), 2);
    assert!(app.pending_indicators.is_none());

    app.indicator_list_side = IndicatorListSide::Current;
    app.indicator_clear_except_volume();
    assert_eq!(app.focused_chart().indicators.len(), 1);
    assert_eq!(app.focused_chart().indicators[0].indicator_type.key(), "volume");
    assert!(app.pending_indicators.is_some());
}

#[test]
fn indicator_select_delta_routes_by_active_list() {
    let mut app = new_app();
    app.enter_workspace();
    app.input_mode = InputMode::IndicatorPanel;
    app.indicator_list_side = IndicatorListSide::Available;
    app.indicator_available_selected = 0;
    app.indicator_select_delta(2);
    assert_eq!(app.indicator_available_selected, 2);

    app.indicator_list_side = IndicatorListSide::Current;
    app.focused_chart_mut()
        .indicators
        .push(IndicatorConfig::volume("volume".into()));
    app.focused_chart_mut()
        .indicators
        .push(IndicatorConfig::ma("ma10".into(), "sma", 10));
    app.indicator_selected = 0;
    app.indicator_select_delta(1);
    assert_eq!(app.indicator_selected, 1);
    // Available selection unchanged while navigating Current.
    assert_eq!(app.indicator_available_selected, 2);
}

fn dual_workspace() -> WorkspaceSnapshot<f64> {
    WorkspaceSnapshot {
        layout_mode: "dual-vertical".into(),
        charts: vec![
            WorkspaceChartSnapshot {
                id: "top".into(),
                instrument: "QQQ".into(),
                timeframe: "1D".into(),
                indicators: vec![],
                type_styles: vec![],
            },
            WorkspaceChartSnapshot {
                id: "bottom".into(),
                instrument: "SPY".into(),
                timeframe: "1D".into(),
                indicators: vec![],
                type_styles: vec![],
            },
        ],
        watchlists: vec![],
        active_watchlist_id: String::new(),
    }
}

fn sample_paper_desk() -> PaperSnapshot<f64> {
    PaperSnapshot {
        active_account_id: "pa_1".into(),
        accounts: vec![
            PaperAccountSnapshot {
                id: "pa_1".into(),
                name: "Paper".into(),
                currency: "USD".into(),
                initial_balance: 100_000.0,
                balance: 100_000.0,
                commission_per_fill_usd: 1.0,
                leverage_enabled: false,
                leverage_multiple: 1.0,
                asset_class_restriction: None,
            },
            PaperAccountSnapshot {
                id: "pa_2".into(),
                name: "Scalps".into(),
                currency: "USD".into(),
                initial_balance: 25_000.0,
                balance: 25_000.0,
                commission_per_fill_usd: 2.0,
                leverage_enabled: true,
                leverage_multiple: 4.0,
                asset_class_restriction: None,
            },
        ],
        defaults: PaperDefaults {
            name: "Paper".into(),
            currency: "USD".into(),
            initial_balance: 100_000.0,
            commission_per_fill_usd: 1.0,
            leverage_enabled: false,
            leverage_multiple: 1.0,
            maintenance_margin_ratio: 0.0,
        },
        working_orders: vec![],
        positions: vec![],
        filled_order_history: vec![],
        balance_history: vec![],
        trade_marks: vec![],
    }
}

fn sample_working_order(
    id: &str,
    instrument: &str,
    side: &str,
    order_type: &str,
    qty: f64,
    limit: Option<f64>,
    stop: Option<f64>,
) -> WorkingOrderSnapshot<f64> {
    WorkingOrderSnapshot {
        id: id.into(),
        account_id: "pa_1".into(),
        instrument: instrument.into(),
        side: side.into(),
        order_type: order_type.into(),
        qty,
        limit,
        stop,
        placed_ts: 1_719_792_000,
        bracket_id: None,
        role: "entry".into(),
    }
}

#[test]
fn snapshot_without_paper_is_empty_desk() {
    let mut app = new_app();
    app.apply_ipc(IpcEvent::Snapshot {
        feed: FeedSnapshot {
            status: "connected".into(),
            vendor_mode: "fake".into(),
            engine: "up".into(),
            last_vendor_tick_ts: None,
        },
        workspace: None,
        quotes: vec![],
        indicators: vec![],
        paper: empty_paper(),
    });
    assert!(app.paper.accounts.is_empty());
    assert!(app.active_paper_account().is_none());
    assert!(app.paper.positions.is_empty());
    assert!(app.paper.filled_order_history.is_empty());
    assert!(app.paper.balance_history.is_empty());
    assert!(app.paper.working_orders.is_empty());
}

#[test]
fn paper_update_event_replaces_desk() {
    let mut app = new_app();
    app.apply_ipc(IpcEvent::PaperUpdate(sample_paper_desk()));
    assert_eq!(
        app.active_paper_account().map(|a| a.name.as_str()),
        Some("Paper")
    );
    assert_eq!(
        app.active_paper_account().map(|a| a.balance),
        Some(100_000.0)
    );
}

#[test]
fn paper_panel_shows_active_account_settings_and_empty_tables() {
    let mut app = new_app();
    app.enter_workspace();
    app.apply_paper(sample_paper_desk());

    let active = app.active_paper_account().expect("active paper account");
    assert_eq!(active.name, "Paper");
    assert_eq!(active.balance, 100_000.0);
    assert_eq!(active.currency, "USD");
    assert_eq!(active.initial_balance, 100_000.0);
    assert_eq!(active.commission_per_fill_usd, 1.0);
    assert!(!active.leverage_enabled);
    assert_eq!(active.leverage_multiple, 1.0);
    assert_eq!(app.paper.defaults.name, "Paper");
    assert_eq!(app.paper.defaults.initial_balance, 100_000.0);
    assert_eq!(app.paper.defaults.commission_per_fill_usd, 1.0);
    assert_eq!(app.paper.defaults.leverage_multiple, 1.0);
    assert!(app.paper.positions.is_empty());
    assert!(app.paper.filled_order_history.is_empty());
    assert!(app.paper.balance_history.is_empty());

    app.apply_paper(PaperSnapshot {
        active_account_id: "pa_2".into(),
        ..sample_paper_desk()
    });
    let active = app.active_paper_account().expect("active paper account");
    assert_eq!(active.name, "Scalps");
    assert_eq!(active.balance, 25_000.0);

    app.apply_paper(PaperSnapshot {
        active_account_id: "missing".into(),
        ..sample_paper_desk()
    });
    assert!(app.active_paper_account().is_none());
}

#[test]
fn paper_panel_toggle_owns_input_focus() {
    let bars = sample_bars(5, 1_000, 60);
    let mut app = app_with_available_bars(bars);
    app.apply_workspace(WorkspaceSnapshot {
        layout_mode: "single".into(),
        charts: vec![WorkspaceChartSnapshot {
            id: "primary".into(),
            instrument: "SPY".into(),
            timeframe: "1D".into(),
            indicators: vec![],
            type_styles: vec![],
        }],
        watchlists: vec![WatchlistSnapshot {
            id: "wl1".into(),
            name: "Core".into(),
            symbols: vec!["SPY".into(), "QQQ".into(), "IWM".into()],
        }],
        active_watchlist_id: "wl1".into(),
    });
    app.watchlist_visible = true;
    app.watchlist_selected = 0;

    app.toggle_paper_panel();
    assert_eq!(app.input_mode, InputMode::PaperPanel);

    app.watchlist_select_delta(1);
    assert_eq!(
        app.watchlist_selected, 0,
        "↑↓ must not move watchlist while paper panel owns focus"
    );
    app.pan_focused_chart(-1);
    assert_eq!(app.chart().pan_cursor_ts, None);
    assert!(!app.load_selected_watchlist_symbol());
    assert_eq!(app.focused_chart().instrument, "SPY");

    app.toggle_paper_panel();
    assert_eq!(app.input_mode, InputMode::Normal);
    app.watchlist_select_delta(1);
    assert_eq!(app.watchlist_selected, 1);
}

#[test]
fn order_side_panel_place_defaults_to_focused_chart_instrument() {
    let mut app = new_app();
    app.enter_workspace();
    app.apply_workspace(dual_workspace());
    app.focused = 0;
    app.toggle_paper_panel();
    assert_eq!(app.order_side_instrument(), "QQQ");
    app.order_side.kind = WorkingOrderKind::Limit;
    app.order_side.qty = 3.0;
    app.order_side.limit = 480.0;
    submit(&mut app);
    assert_eq!(
        app.pending_paper,
        Some(PendingPaperOp::Place {
            instrument: "QQQ".into(),
            side: "buy".into(),
            order_type: "limit".into(),
            qty: 3.0,
            limit: Some(480.0),
            stop: None,
        })
    );

    app.pending_paper = None;
    app.close_paper_panel();
    app.focused = 1;
    app.toggle_paper_panel();
    assert_eq!(app.order_side_instrument(), "SPY");
    app.paper_set_kind(WorkingOrderKind::Market);
    submit(&mut app);
    assert_eq!(
        app.pending_paper,
        Some(PendingPaperOp::Place {
            instrument: "SPY".into(),
            side: "buy".into(),
            order_type: "market".into(),
            qty: 1.0,
            limit: None,
            stop: None,
        })
    );
}

#[test]
fn order_side_panel_modify_and_cancel_selected_working_order() {
    let mut app = new_app();
    app.enter_workspace();
    let mut desk = sample_paper_desk();
    desk.working_orders = vec![sample_working_order(
        "wo_1",
        "SPY",
        "buy",
        "limit",
        10.0,
        Some(540.0),
        None,
    )];
    app.apply_paper(desk);
    app.toggle_paper_panel();
    app.paper_select_working_delta(1);
    assert_eq!(app.order_side.selected_order_id.as_deref(), Some("wo_1"));
    assert_eq!(app.order_side.qty, 10.0);
    assert_eq!(app.order_side.limit, 540.0);

    paper_nudge_qty(&mut app, -6);
    paper_nudge_price(&mut app, 50);
    submit(&mut app);
    assert_eq!(
        app.pending_paper,
        Some(PendingPaperOp::Modify {
            order_id: "wo_1".into(),
            qty: Some(4.0),
            limit: Some(540.5),
            stop: None,
        })
    );

    app.pending_paper = None;
    app.paper_cancel_selected();
    assert_eq!(
        app.pending_paper,
        Some(PendingPaperOp::Cancel {
            order_id: "wo_1".into(),
        })
    );
}


#[test]
fn paper_panel_keys_idle_until_open() {
    let mut app = new_app();
    app.enter_workspace();
    app.paper_cycle_side();
    submit(&mut app);
    assert_eq!(app.order_side.side, OrderSide::Buy);
    assert!(app.pending_paper.is_none());
    app.toggle_paper_panel();
    app.paper_cycle_side();
    assert_eq!(app.order_side.side, OrderSide::Sell);
}

#[test]
fn order_side_panel_reports_missing_limit_instead_of_silent_noop() {
    let mut app = new_app();
    app.enter_workspace();
    app.toggle_paper_panel();
    app.paper_set_kind(WorkingOrderKind::Limit);
    app.order_side.limit = 0.0;
    submit(&mut app);
    assert!(app.pending_paper.is_none());
    assert_eq!(app.last_paper_error.as_deref(), Some("limit is required"));
}

#[test]
fn order_side_panel_locks_type_while_a_working_order_is_selected() {
    let mut app = new_app();
    app.enter_workspace();
    let mut desk = sample_paper_desk();
    desk.working_orders = vec![sample_working_order(
        "wo_1",
        "SPY",
        "buy",
        "limit",
        10.0,
        Some(540.0),
        None,
    )];
    app.apply_paper(desk);
    app.toggle_paper_panel();
    app.paper_select_working_delta(1);
    app.paper_set_kind(WorkingOrderKind::Stop);
    app.paper_set_side(OrderSide::Sell);
    assert_eq!(app.order_side.kind, WorkingOrderKind::Limit);
    assert_eq!(app.order_side.side, OrderSide::Buy);
}

#[test]
fn forming_bar_countdown_label_from_available_series() {
    // 1m tip open at 1_000; at now=1_025 remaining is 35s → "0:35".
    let bars = sample_bars(3, 1_000, 60);
    let mut chart: Chart<f64> = Chart::default_single();
    chart.timeframe = "1m".into();
    chart.series = ChartSeriesState::Available { bars: bars.clone() };
    assert_eq!(
        chart.forming_bar_countdown_label(1_000 + 2 * 60 + 25),
        Some("0:35".into())
    );
    // Loading / empty: no invented countdown.
    chart.series = ChartSeriesState::Loading;
    assert_eq!(chart.forming_bar_countdown_label(1_200), None);
    chart.series = ChartSeriesState::Available { bars: vec![] };
    assert_eq!(chart.forming_bar_countdown_label(1_200), None);
}

#[test]
fn dual_charts_have_independent_countdowns() {
    // Both tips open at t=10_000; now is 10s into the forming bar.
    let mut top: Chart<f64> = Chart::default_dual_top();
    top.timeframe = "1m".into();
    top.series = ChartSeriesState::Available {
        bars: sample_bars(2, 9_940, 60), // tip open 10_000
    };
    let mut bottom: Chart<f64> = Chart::default_dual_bottom();
    bottom.timeframe = "5m".into();
    bottom.series = ChartSeriesState::Available {
        bars: sample_bars(2, 9_700, 300), // tip open 10_000
    };
    let now = 10_010;
    // 1m → 50s left; 5m → 290s left (independent of dual peer).
    assert_eq!(top.forming_bar_countdown_label(now), Some("0:50".into()));
    assert_eq!(bottom.forming_bar_countdown_label(now), Some("4:50".into()));
    let top_title = top.chrome_title(true, now);
    let bottom_title = bottom.chrome_title(false, now);
    assert!(top_title.contains("0:50"), "{top_title}");
    assert!(bottom_title.contains("4:50"), "{bottom_title}");
    assert!(!top_title.contains("4:50"));
}

#[test]
fn working_overlay_lines_only_on_matching_instrument() {
    let mut app = new_app();
    let mut desk = sample_paper_desk();
    desk.working_orders = vec![
        sample_working_order("wo_spy_l", "SPY", "buy", "limit", 1.0, Some(540.0), None),
        sample_working_order("wo_spy_s", "SPY", "sell", "stop", 1.0, None, Some(530.0)),
        sample_working_order("wo_spy_m", "SPY", "buy", "market", 1.0, None, None),
        sample_working_order("wo_qqq", "QQQ", "buy", "limit", 1.0, Some(480.0), None),
    ];
    app.apply_paper(desk);

    let spy = app.working_overlay_levels("SPY", 0.0, 10.0);
    assert_eq!(spy.len(), 2);
    assert!(spy.iter().all(|l| l.type_key == "working_order"));
    assert_eq!(spy[0].price, 540.0);
    assert_eq!(spy[1].price, 530.0);
    let qqq = app.working_overlay_levels("QQQ", 0.0, 10.0);
    assert_eq!(qqq.len(), 1);
    assert_eq!(qqq[0].price, 480.0);
    assert!(app.working_overlay_levels("IWM", 0.0, 10.0).is_empty());
}
