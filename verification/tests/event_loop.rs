use mine_sweeper_ui::action::Action;
use mine_sweeper_ui::event_loop::EventLoopCore;
use mine_sweeper_ui::event_loop::WindowEvent;
use mine_sweeper_ui::grid::Grid;
use mine_sweeper_ui::gui_config::GuiConfig;
use mine_sweeper_ui::gui_config::SectionButtons;
use mine_sweeper_ui::hit_test::ClickableElement;
use mine_sweeper_ui::hit_test::HitRegion;
use mine_sweeper_ui::hit_test::Rect;
use mine_sweeper_ui::protocol::Instruction;
use mine_sweeper_ui::protocol::Output;

fn config(width: usize, height: usize) -> GuiConfig {
    GuiConfig::new(SectionButtons::new(), Grid::new(width, height).unwrap())
}

fn tile_region(x: usize, y: usize, origin_x: i32, origin_y: i32) -> HitRegion {
    HitRegion {
        rect: Rect { x: origin_x, y: origin_y, width: 15, height: 15 },
        element: ClickableElement::GridTile { x, y },
    }
}

#[test]
fn configure_creates_window_and_acknowledges() {
    let mut core = EventLoopCore::new();
    assert!(!core.has_render_state());
    let outputs = core.apply_instruction(
        Instruction::Configure { config: config(2, 2), update_id: 7 },
        Some(Ok(vec![tile_region(0, 0, 0, 0)])),
    );
    assert!(core.has_render_state());
    assert_eq!(outputs, vec![Output::UpdateAcknowledgement { update_id: 7 }]);
}

#[test]
fn configure_failure_reports_error_and_still_acknowledges() {
    let mut core = EventLoopCore::new();
    let outputs = core.apply_instruction(
        Instruction::Configure { config: config(2, 2), update_id: 3 },
        Some(Err("no adapter".to_string())),
    );
    assert!(!core.has_render_state());
    assert_eq!(
        outputs,
        vec![
            Output::Error { detail_message: "no adapter".to_string() },
            Output::UpdateAcknowledgement { update_id: 3 },
        ]
    );
}

#[test]
fn second_configure_replaces_config_in_place() {
    let mut core = EventLoopCore::new();
    core.apply_instruction(
        Instruction::Configure { config: config(2, 2), update_id: 0 },
        Some(Ok(Vec::new())),
    );
    let outputs = core.apply_instruction(
        Instruction::Configure { config: config(9, 4), update_id: 1 },
        None,
    );
    assert_eq!(outputs, vec![Output::UpdateAcknowledgement { update_id: 1 }]);
    let shown = core.current_config().unwrap();
    assert_eq!(shown.grid.width(), 9);
    assert_eq!(shown.grid.height(), 4);
}

#[test]
fn close_window_drops_state_and_shut_down_terminates() {
    let mut core = EventLoopCore::new();
    core.apply_instruction(
        Instruction::Configure { config: config(2, 2), update_id: 0 },
        Some(Ok(Vec::new())),
    );
    assert!(core.has_render_state());
    let outputs = core.apply_instruction(Instruction::CloseWindow, None);
    assert!(outputs.is_empty());
    assert!(!core.has_render_state());
    assert!(!core.is_terminated());
    let outputs = core.apply_instruction(Instruction::ShutDown, None);
    assert!(outputs.is_empty());
    assert!(core.is_terminated());
}

#[test]
fn window_events_ignored_without_render_state() {
    let mut core = EventLoopCore::new();
    assert_eq!(core.handle_window_event(WindowEvent::CloseRequested), None);
    assert_eq!(core.handle_window_event(WindowEvent::PointerPressed { alternate: false }), None);
}

#[test]
fn close_request_is_configuration_independent() {
    let mut core = EventLoopCore::new();
    core.apply_instruction(
        Instruction::Configure { config: config(2, 2), update_id: 0 },
        Some(Ok(Vec::new())),
    );
    let out = core.handle_window_event(WindowEvent::CloseRequested);
    assert_eq!(
        out,
        Some(Output::Action { action: Action::CloseRequested, configuration_independent: true })
    );
}

#[test]
fn click_is_hit_tested_at_last_cursor_position() {
    let mut core = EventLoopCore::new();
    core.apply_instruction(
        Instruction::Configure { config: config(2, 2), update_id: 0 },
        Some(Ok(vec![tile_region(0, 0, 0, 0), tile_region(1, 0, 16, 0)])),
    );
    // no position known yet: the press is ignored
    assert_eq!(core.handle_window_event(WindowEvent::PointerPressed { alternate: false }), None);
    core.handle_window_event(WindowEvent::PointerMoved { x: 20, y: 4 });
    let out = core.handle_window_event(WindowEvent::PointerPressed { alternate: false });
    assert_eq!(
        out,
        Some(Output::Action {
            action: Action::TileClick { x: 1, y: 0, alternate_click: false },
            configuration_independent: false,
        })
    );
    // the secondary button is an alternate click
    let out = core.handle_window_event(WindowEvent::PointerPressed { alternate: true });
    assert_eq!(
        out,
        Some(Output::Action {
            action: Action::TileClick { x: 1, y: 0, alternate_click: true },
            configuration_independent: false,
        })
    );
    // once the pointer leaves, clicks are ignored again
    core.handle_window_event(WindowEvent::PointerLeft);
    assert_eq!(core.handle_window_event(WindowEvent::PointerPressed { alternate: false }), None);
}

#[test]
fn button_region_yields_button_press() {
    let mut core = EventLoopCore::new();
    let button_region = HitRegion {
        rect: Rect { x: 0, y: 40, width: 30, height: 16 },
        element: ClickableElement::Button { id: "restart".to_string() },
    };
    core.apply_instruction(
        Instruction::Configure { config: config(2, 2), update_id: 0 },
        Some(Ok(vec![button_region])),
    );
    core.handle_window_event(WindowEvent::PointerMoved { x: 10, y: 50 });
    let out = core.handle_window_event(WindowEvent::PointerPressed { alternate: false });
    assert_eq!(
        out,
        Some(Output::Action {
            action: Action::ButtonPress { button_id: "restart".to_string() },
            configuration_independent: false,
        })
    );
}

#[test]
fn rerender_refreshes_hit_regions() {
    let mut core = EventLoopCore::new();
    core.apply_instruction(
        Instruction::Configure { config: config(2, 2), update_id: 0 },
        Some(Ok(vec![tile_region(0, 0, 0, 0)])),
    );
    core.handle_window_event(WindowEvent::PointerMoved { x: 40, y: 40 });
    assert_eq!(core.handle_window_event(WindowEvent::PointerPressed { alternate: false }), None);
    core.update_hit_regions(vec![tile_region(2, 2, 32, 32)]);
    let out = core.handle_window_event(WindowEvent::PointerPressed { alternate: false });
    assert_eq!(
        out,
        Some(Output::Action {
            action: Action::TileClick { x: 2, y: 2, alternate_click: false },
            configuration_independent: false,
        })
    );
}
