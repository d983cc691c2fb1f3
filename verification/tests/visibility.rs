use ad_surface::{
    hide_ads_window, init, init_ads_window, plan_placement, scroll_ads_window, show_ads_window,
    AdsError, AdsState, LogicalPosition, LogicalSize, Placement, Scalar, ScrollEvent,
    SurfaceReply,
};

fn px(value: f32) -> Scalar {
    Scalar::from_bits(value.to_bits())
}

fn gone() -> SurfaceReply {
    SurfaceReply::Unavailable(String::from("webview not found"))
}

fn placed_state() -> AdsState {
    let mut state = init();
    let result = init_ads_window(
        &mut state,
        px(10.0),
        px(10.0),
        px(300.0),
        px(250.0),
        true,
        SurfaceReply::Acknowledged,
    );
    assert_eq!(result, Ok(()));
    state
}

#[test]
fn fresh_state_is_shown_and_empty() {
    let state = init();
    assert!(state.shown);
    assert_eq!(state.size, None);
    assert_eq!(state.position, None);
    assert_eq!(state.last_click, None);
    assert!(state.malicious_origins.is_empty());
}

#[test]
fn init_then_hide_with_reset() {
    let mut state = placed_state();
    assert!(state.shown);
    assert_eq!(state.size, Some(LogicalSize { width: px(300.0), height: px(250.0) }));
    assert_eq!(state.position, Some(LogicalPosition { x: px(10.0), y: px(10.0) }));

    let result = hide_ads_window(&mut state, Some(true), SurfaceReply::Acknowledged);
    assert_eq!(result, Ok(()));
    assert!(!state.shown);
    assert_eq!(state.size, None);
    assert_eq!(state.position, None);
}

#[test]
fn hide_without_reset_keeps_geometry() {
    for reset in [None, Some(false)] {
        let mut state = placed_state();
        assert_eq!(hide_ads_window(&mut state, reset, SurfaceReply::Acknowledged), Ok(()));
        assert!(!state.shown);
        assert_eq!(state.size, Some(LogicalSize { width: px(300.0), height: px(250.0) }));
        assert_eq!(state.position, Some(LogicalPosition { x: px(10.0), y: px(10.0) }));
    }
}

#[test]
fn hide_twice_is_hide_once() {
    for reset in [None, Some(false), Some(true)] {
        let mut once = placed_state();
        assert_eq!(hide_ads_window(&mut once, reset, SurfaceReply::Acknowledged), Ok(()));
        let mut twice = once.clone();
        assert_eq!(hide_ads_window(&mut twice, reset, SurfaceReply::Acknowledged), Ok(()));
        assert_eq!(twice, once);
    }
}

#[test]
fn hide_then_hide_with_reset_is_one_reset() {
    let mut state = placed_state();
    assert_eq!(hide_ads_window(&mut state, None, SurfaceReply::Acknowledged), Ok(()));
    assert_eq!(hide_ads_window(&mut state, Some(true), SurfaceReply::Acknowledged), Ok(()));
    let mut expected = placed_state();
    assert_eq!(hide_ads_window(&mut expected, Some(true), SurfaceReply::Acknowledged), Ok(()));
    assert_eq!(state, expected);
}

#[test]
fn show_sets_shown_and_is_idempotent() {
    let mut state = placed_state();
    assert_eq!(hide_ads_window(&mut state, None, SurfaceReply::Acknowledged), Ok(()));
    assert!(!state.shown);
    assert_eq!(show_ads_window(&mut state, SurfaceReply::Acknowledged), Ok(()));
    assert!(state.shown);
    let once = state.clone();
    assert_eq!(show_ads_window(&mut state, SurfaceReply::Acknowledged), Ok(()));
    assert_eq!(state, once);
    assert_eq!(state.size, Some(LogicalSize { width: px(300.0), height: px(250.0) }));
}

#[test]
fn init_rejects_negative_extents() {
    let cases: [(f32, f32); 5] =
        [(-1.0, 250.0), (300.0, -1.0), (-300.0, -250.0), (-0.5, 0.0), (0.0, -1.0e-40)];
    for (width, height) in cases {
        for start in [init(), placed_state()] {
            let mut state = start.clone();
            let result = init_ads_window(
                &mut state,
                px(0.0),
                px(0.0),
                px(width),
                px(height),
                true,
                SurfaceReply::Acknowledged,
            );
            assert_eq!(result, Err(AdsError::InvalidGeometry));
            assert_eq!(state, start);
        }
    }
}

#[test]
fn init_rejects_infinite_and_nan_extents() {
    for bad in [f32::INFINITY, f32::NEG_INFINITY, f32::NAN] {
        let start = placed_state();
        let mut state = start.clone();
        let result = init_ads_window(
            &mut state,
            px(0.0),
            px(0.0),
            px(bad),
            px(250.0),
            false,
            SurfaceReply::Acknowledged,
        );
        assert_eq!(result, Err(AdsError::InvalidGeometry));
        assert_eq!(state, start);
        let result = init_ads_window(
            &mut state,
            px(0.0),
            px(0.0),
            px(300.0),
            px(bad),
            false,
            SurfaceReply::Acknowledged,
        );
        assert_eq!(result, Err(AdsError::InvalidGeometry));
        assert_eq!(state, start);
    }
}

#[test]
fn init_accepts_zero_extents_and_any_position() {
    let mut state = init();
    let result = init_ads_window(
        &mut state,
        px(-1920.0),
        px(f32::NAN),
        px(0.0),
        px(-0.0),
        false,
        SurfaceReply::Acknowledged,
    );
    assert_eq!(result, Ok(()));
    assert_eq!(state.size, Some(LogicalSize { width: px(0.0), height: px(-0.0) }));
    assert_eq!(state.position, Some(LogicalPosition { x: px(-1920.0), y: px(f32::NAN) }));
}

#[test]
fn init_without_override_preserves_visibility() {
    let mut state = init();
    assert_eq!(hide_ads_window(&mut state, None, SurfaceReply::Acknowledged), Ok(()));
    let result = init_ads_window(
        &mut state,
        px(1.0),
        px(2.0),
        px(3.0),
        px(4.0),
        false,
        SurfaceReply::Acknowledged,
    );
    assert_eq!(result, Ok(()));
    assert!(!state.shown);
    assert_eq!(state.size, Some(LogicalSize { width: px(3.0), height: px(4.0) }));
    assert_eq!(state.position, Some(LogicalPosition { x: px(1.0), y: px(2.0) }));

    let mut shown = init();
    let result = init_ads_window(
        &mut shown,
        px(1.0),
        px(2.0),
        px(3.0),
        px(4.0),
        false,
        SurfaceReply::Acknowledged,
    );
    assert_eq!(result, Ok(()));
    assert!(shown.shown);
}

#[test]
fn init_with_override_shows_a_hidden_surface() {
    let mut state = init();
    assert_eq!(hide_ads_window(&mut state, None, SurfaceReply::Acknowledged), Ok(()));
    let result = init_ads_window(
        &mut state,
        px(1.0),
        px(2.0),
        px(3.0),
        px(4.0),
        true,
        SurfaceReply::Acknowledged,
    );
    assert_eq!(result, Ok(()));
    assert!(state.shown);
}

#[test]
fn init_replaces_earlier_geometry() {
    let mut state = placed_state();
    let result = init_ads_window(
        &mut state,
        px(5.0),
        px(6.0),
        px(728.0),
        px(90.0),
        false,
        SurfaceReply::Acknowledged,
    );
    assert_eq!(result, Ok(()));
    assert_eq!(state.size, Some(LogicalSize { width: px(728.0), height: px(90.0) }));
    assert_eq!(state.position, Some(LogicalPosition { x: px(5.0), y: px(6.0) }));
}

#[test]
fn unavailable_surface_leaves_the_record_alone() {
    let start = placed_state();

    let mut state = start.clone();
    let result =
        init_ads_window(&mut state, px(1.0), px(2.0), px(3.0), px(4.0), true, gone());
    assert_eq!(result, Err(AdsError::SurfaceUnavailable(String::from("webview not found"))));
    assert_eq!(state, start);

    let result = hide_ads_window(&mut state, Some(true), gone());
    assert_eq!(result, Err(AdsError::SurfaceUnavailable(String::from("webview not found"))));
    assert_eq!(state, start);

    let mut hidden = start.clone();
    assert_eq!(hide_ads_window(&mut hidden, None, SurfaceReply::Acknowledged), Ok(()));
    let before = hidden.clone();
    let result = show_ads_window(&mut hidden, gone());
    assert_eq!(result, Err(AdsError::SurfaceUnavailable(String::from("webview not found"))));
    assert_eq!(hidden, before);
}

#[test]
fn invalid_geometry_is_reported_before_the_surface_failure() {
    let mut state = init();
    let result =
        init_ads_window(&mut state, px(1.0), px(2.0), px(-3.0), px(4.0), true, gone());
    assert_eq!(result, Err(AdsError::InvalidGeometry));
    assert_eq!(state, init());
}

#[test]
fn plan_gives_the_target_of_a_valid_request() {
    let state = init();
    let plan = plan_placement(&state, px(10.0), px(10.0), px(300.0), px(250.0), false);
    assert_eq!(
        plan,
        Ok(Placement {
            position: LogicalPosition { x: px(10.0), y: px(10.0) },
            size: LogicalSize { width: px(300.0), height: px(250.0) },
            shown: true,
        })
    );

    let mut hidden = init();
    assert_eq!(hide_ads_window(&mut hidden, None, SurfaceReply::Acknowledged), Ok(()));
    let plan = plan_placement(&hidden, px(10.0), px(10.0), px(300.0), px(250.0), false);
    assert_eq!(plan.map(|p| p.shown), Ok(false));
    let plan = plan_placement(&hidden, px(10.0), px(10.0), px(300.0), px(250.0), true);
    assert_eq!(plan.map(|p| p.shown), Ok(true));
}

#[test]
fn plan_rejects_what_init_rejects() {
    let state = init();
    for (width, height) in [(-1.0f32, 1.0f32), (1.0, -1.0), (f32::NAN, 1.0), (1.0, f32::INFINITY)]
    {
        let plan = plan_placement(&state, px(0.0), px(0.0), px(width), px(height), true);
        assert_eq!(plan, Err(AdsError::InvalidGeometry));
    }
}

#[test]
fn plan_agrees_with_the_record_after_init() {
    let mut state = init();
    assert_eq!(hide_ads_window(&mut state, None, SurfaceReply::Acknowledged), Ok(()));
    for override_shown in [false, true] {
        let mut next = state.clone();
        let plan =
            plan_placement(&next, px(7.0), px(8.0), px(9.0), px(10.0), override_shown).unwrap();
        let result = init_ads_window(
            &mut next,
            px(7.0),
            px(8.0),
            px(9.0),
            px(10.0),
            override_shown,
            SurfaceReply::Acknowledged,
        );
        assert_eq!(result, Ok(()));
        assert_eq!(next.shown, plan.shown);
        assert_eq!(next.size, Some(plan.size));
        assert_eq!(next.position, Some(plan.position));
    }
}

#[test]
fn scroll_hint_carries_the_offset() {
    for offset in [0.0f32, 12.5, -40.0, f32::MAX] {
        let scroll = px(offset);
        let event = scroll_ads_window(scroll);
        assert_eq!(event, ScrollEvent { scroll });
        assert_eq!(f32::from_bits(event.scroll.to_bits()), offset);
    }
}
