use std::collections::HashMap;
use tuitty::device::DeviceOp;
use tuitty::dispatch::{complete, dispatch, examine, goes_on, request, signal, Step};
use tuitty::error::Error;
use tuitty::event::{InputEvent, KeyEvent};
use tuitty::grid::Platform;
use tuitty::handle::{EventHandle, EventReceiver, Progress, Wait};
use tuitty::message::{Action, Cmd, Msg, Query, Reply};
use tuitty::paint::Paint;
use tuitty::registry::{
    all_ids, enroll, lock, route, stop, suspend, sweep, transmit, unlock, vacant, EventEmitter,
};
use tuitty::router::{device_calls, execute, handle_action};
use tuitty::store::{Screen, Store};
use tuitty::style::{Clear, Color, Style, FX_RESET};

/// The device calls of an action, and the action mirrored in the model.
fn act(action: Action, store: &mut Store, size: (i16, i16)) -> Vec<DeviceOp> {
    let ops = device_calls(&action, store);
    assert_eq!(handle_action(action, store, size, Ok(())), Ok(()));
    ops
}

/// The steps of a command, and the command completed.
fn run(
    cmd: Cmd,
    store: &mut Store,
    roster: &mut HashMap<usize, EventEmitter<u8>>,
    lock_owner: usize,
    size: (i16, i16),
) -> Vec<Step> {
    let steps = dispatch(&cmd, store, roster, lock_owner);
    assert_eq!(complete(cmd, store, roster, size, Ok(())), Ok(()));
    steps
}

fn shown(ops: &Vec<DeviceOp>) -> Vec<String> {
    ops.iter().map(|op| format!("{:?}", op)).collect()
}

fn told(steps: &Vec<Step>) -> Vec<String> {
    steps.iter().map(|s| format!("{:?}", s)).collect()
}

fn roster_of(ids: &[usize]) -> HashMap<usize, EventEmitter<u8>> {
    let mut roster = HashMap::new();
    for id in ids {
        enroll(&mut roster, *id, 0u8);
    }
    roster
}

#[test]
fn store_starts_on_the_main_screen() {
    let store = Store::new(5, 2);
    assert_eq!(store.id(), 0);
    assert!(store.contains(0));
    assert!(!store.contains(1));
    assert_eq!(store.size(), (5, 2));
    assert_eq!(store.coord(), (0, 0));
    assert_eq!(store.getch(), " ");
    assert!(!store.is_raw());
    assert!(!store.is_mouse());
    assert!(store.is_cursor());
    assert_eq!(store.platform(), Platform::Ansi);
    let _ = Screen::new(3, 3);
}

#[test]
fn store_set_rejects_a_missing_screen() {
    let mut store = Store::new(5, 2);
    assert_eq!(store.set(3), Err(Error::NotFound(3)));
    assert_eq!(store.id(), 0);
    store.new_screen(4, 4);
    assert_eq!(store.id(), 1);
    assert_eq!(store.size(), (4, 4));
    assert_eq!(store.set(0), Ok(()));
    assert_eq!(store.id(), 0);
    assert_eq!(store.size(), (5, 2));
    assert_eq!(store.set(1), Ok(()));
    assert_eq!(store.set(2), Err(Error::NotFound(2)));
    assert_eq!(store.id(), 1);
}

#[test]
fn store_changes_only_the_current_screen() {
    let mut store = Store::new(5, 2);
    store.sync_content("ab");
    store.sync_raw(true);
    store.sync_mouse(true);
    store.sync_cursor(false);
    store.new_screen(5, 2);
    assert!(!store.is_raw());
    assert!(!store.is_mouse());
    assert!(store.is_cursor());
    assert_eq!(store.coord(), (0, 0));
    store.sync_content("xyz");
    store.sync_left(1);
    assert_eq!(store.getch(), "z");
    assert_eq!(store.set(0), Ok(()));
    assert!(store.is_raw());
    assert!(store.is_mouse());
    assert!(!store.is_cursor());
    assert_eq!(store.coord(), (2, 0));
    store.sync_goto(0, 0);
    assert_eq!(store.getch(), "a");
}

#[test]
fn store_forwards_to_the_buffer() {
    let mut store = Store::new(6, 3);
    store.sync_goto(2, 1);
    assert_eq!(store.coord(), (2, 1));
    store.sync_right(2);
    store.sync_down(5);
    assert_eq!(store.coord(), (4, 2));
    store.sync_left(1);
    store.sync_up(1);
    assert_eq!(store.coord(), (3, 1));
    store.sync_marker(0, 0);
    store.jump();
    assert_eq!(store.coord(), (0, 0));
    store.jump();
    assert_eq!(store.coord(), (3, 1));
    store.sync_tab_size(2);
    store.sync_content("\t");
    assert_eq!(store.coord(), (4, 1));
    store.sync_style(Style::Fg(Color::Red));
    store.sync_styles(Color::Reset, Color::Reset, FX_RESET);
    store.sync_content("q");
    store.sync_left(1);
    assert_eq!(store.getch(), "q");
    store.delch();
    assert_eq!(store.getch(), " ");
    store.sync_content("r");
    store.sync_clear(Clear::All);
    assert_eq!(store.coord(), (0, 0));
    assert_eq!(store.getch(), " ");
    store.sync_size(2, 2);
    assert_eq!(store.size(), (2, 2));
    store.sync_content("ab");
    assert_eq!(store.render(), vec![Paint::Put('a'), Paint::Put('b'), Paint::Put(' '), Paint::Put(' ')]);
    assert_eq!(store.refresh(), vec![]);
}

#[test]
fn goto_is_clamped_to_the_window() {
    let mut store = Store::new(5, 2);
    let ops = act(Action::Goto(9, -4), &mut store, (0, 0));
    assert_eq!(shown(&ops), vec!["Goto(4, 0)"]);
    assert_eq!(store.coord(), (4, 0));
    let ops = act(Action::Goto(-1, 7), &mut store, (0, 0));
    assert_eq!(shown(&ops), vec!["Goto(0, 1)"]);
    assert_eq!(store.coord(), (0, 1));
}

#[test]
fn moves_are_cut_at_the_window() {
    let mut store = Store::new(5, 3);
    store.sync_goto(2, 1);
    let ops = act(Action::Up(4), &mut store, (0, 0));
    assert_eq!(shown(&ops), vec!["Up(1)"]);
    assert_eq!(store.coord(), (2, 0));
    let ops = act(Action::Down(1), &mut store, (0, 0));
    assert_eq!(shown(&ops), vec!["Down(1)"]);
    let ops = act(Action::Down(9), &mut store, (0, 0));
    assert_eq!(shown(&ops), vec!["Down(1)"]);
    assert_eq!(store.coord(), (2, 2));
    let ops = device_calls(&Action::Left(3), &store);
    assert_eq!(shown(&ops), vec!["Left(2)"]);
    assert_eq!(execute(Action::Left(3), &mut store, (0, 0), Ok(())), Ok(()));
    assert_eq!(store.coord(), (0, 2));
    let ops = device_calls(&Action::Right(7), &store);
    assert_eq!(shown(&ops), vec!["Right(4)"]);
    assert_eq!(signal(Action::Right(7), &mut store, (0, 0), Ok(())), Ok(()));
    assert_eq!(store.coord(), (4, 2));
    let ops = act(Action::Left(1), &mut store, (0, 0));
    assert_eq!(shown(&ops), vec!["Left(1)"]);
    assert_eq!(store.coord(), (3, 2));
}

#[test]
fn moves_count_by_absolute_value() {
    let mut store = Store::new(5, 3);
    store.sync_goto(2, 1);
    let ops = act(Action::Up(-1), &mut store, (0, 0));
    assert_eq!(shown(&ops), vec!["Up(1)"]);
    assert_eq!(store.coord(), (2, 0));
    let ops = act(Action::Down(-5), &mut store, (0, 0));
    assert_eq!(shown(&ops), vec!["Down(2)"]);
    assert_eq!(store.coord(), (2, 2));
    let ops = act(Action::Left(i16::MIN), &mut store, (0, 0));
    assert_eq!(shown(&ops), vec!["Left(2)"]);
    assert_eq!(store.coord(), (0, 2));
    let ops = act(Action::Right(-1), &mut store, (0, 0));
    assert_eq!(shown(&ops), vec!["Right(1)"]);
    assert_eq!(store.coord(), (1, 2));
}

#[test]
fn moves_from_past_the_grid() {
    let mut store = Store::new(2, 2);
    store.sync_content("abcd");
    assert_eq!(store.coord(), (0, 2));
    let ops = act(Action::Down(3), &mut store, (0, 0));
    assert_eq!(shown(&ops), vec!["Down(0)"]);
    assert_eq!(store.coord(), (0, 1));
}

#[test]
fn refused_call_leaves_the_model() {
    let mut store = Store::new(5, 2);
    store.sync_content("ab");
    let refused = Err(Error::DeviceIo);
    assert_eq!(shown(&device_calls(&Action::Goto(3, 1), &store)), vec!["Goto(3, 1)"]);
    assert_eq!(handle_action(Action::Goto(3, 1), &mut store, (0, 0), refused), refused);
    assert_eq!(store.coord(), (2, 0));
    assert_eq!(execute(Action::Prints("xyz".to_string()), &mut store, (0, 0), refused), refused);
    assert_eq!(store.coord(), (2, 0));
    assert_eq!(signal(Action::Raw, &mut store, (0, 0), refused), refused);
    assert!(!store.is_raw());
    assert_eq!(handle_action(Action::NewScreen, &mut store, (0, 0), refused), refused);
    assert_eq!(store.id(), 0);
    assert!(!store.contains(1));
    assert_eq!(handle_action(Action::Resize(9, 9), &mut store, (0, 0), refused), refused);
    assert_eq!(store.size(), (5, 2));
    assert_eq!(handle_action(Action::Clear(Clear::All), &mut store, (0, 0), refused), refused);
    assert_eq!(store.buffer().check_contents(), format!("ab{}", " ".repeat(8)));
    let mut roster = roster_of(&[1]);
    let cmd = Cmd::Signal(Action::Goto(4, 1));
    assert_eq!(told(&dispatch(&cmd, &store, &roster, 0)), vec!["Device(Goto(4, 1))"]);
    assert_eq!(complete(cmd, &mut store, &mut roster, (5, 2), refused), refused);
    assert_eq!(store.coord(), (2, 0));
}

#[test]
fn device_calls_leave_the_model() {
    let mut store = Store::new(3, 1);
    store.sync_content("ab");
    let ops = device_calls(&Action::Render, &store);
    assert_eq!(
        shown(&ops),
        vec!["Goto(0, 0)", "Paint([Put('a'), Put('b'), Put(' ')])", "Goto(2, 0)", "Flush"]
    );
    // Nothing was recorded as painted.
    assert_eq!(store.buffer().diff(), vec![Paint::Goto(0, 0), Paint::Put('a'), Paint::Put('b')]);
    assert_eq!(handle_action(Action::Render, &mut store, (0, 0), Ok(())), Ok(()));
    assert_eq!(store.buffer().diff(), vec![]);
}

#[test]
fn one_failure_is_forgiven() {
    assert!(goes_on(false, &Ok(())));
    assert!(goes_on(true, &Ok(())));
    assert!(goes_on(false, &Err(Error::DeviceIo)));
    assert!(!goes_on(true, &Err(Error::DeviceIo)));
}

#[test]
fn output_actions() {
    let mut store = Store::new(5, 2);
    let ops = act(Action::Prints("ab".to_string()), &mut store, (0, 0));
    assert_eq!(shown(&ops), vec!["Prints(\"ab\")"]);
    assert_eq!(store.coord(), (2, 0));
    let ops = act(Action::Printf("c".to_string()), &mut store, (0, 0));
    assert_eq!(shown(&ops), vec!["Printf(\"c\")"]);
    assert_eq!(store.coord(), (3, 0));
    let ops = act(Action::SetContent("z".to_string(), 0, 1), &mut store, (0, 0));
    assert!(ops.is_empty());
    assert_eq!(store.coord(), (1, 1));
    let ops = act(Action::Flush, &mut store, (0, 0));
    assert_eq!(shown(&ops), vec!["Flush"]);
    let ops = act(Action::Clear(Clear::CurrentLn), &mut store, (0, 0));
    assert_eq!(shown(&ops), vec!["Clear(CurrentLn)"]);
    assert_eq!(store.coord(), (0, 1));
    assert_eq!(store.getch(), " ");
}

#[test]
fn render_and_refresh_frame_the_paint() {
    let mut store = Store::new(3, 1);
    store.sync_content("ab");
    store.sync_left(1);
    let ops = act(Action::Render, &mut store, (0, 0));
    assert_eq!(
        shown(&ops),
        vec!["Goto(0, 0)", "Paint([Put('a'), Put('b'), Put(' ')])", "Goto(1, 0)", "Flush"]
    );
    let ops = act(Action::Refresh, &mut store, (0, 0));
    assert_eq!(shown(&ops), vec!["Goto(1, 0)", "Flush"]);
    store.sync_content("X");
    let ops = act(Action::Refresh, &mut store, (0, 0));
    assert_eq!(
        shown(&ops),
        vec!["Paint([Goto(1, 0), Put('X'), Reset])", "Goto(2, 0)", "Flush"]
    );
}

#[test]
fn resize_ignores_an_empty_window() {
    let mut store = Store::new(5, 2);
    let ops = act(Action::Resize(0, 4), &mut store, (0, 0));
    assert!(ops.is_empty());
    assert_eq!(store.size(), (5, 2));
    let ops = act(Action::Resize(7, 3), &mut store, (0, 0));
    assert_eq!(shown(&ops), vec!["Resize(7, 3)"]);
    assert_eq!(store.size(), (7, 3));
    let ops = act(Action::Resized, &mut store, (4, 4));
    assert!(ops.is_empty());
    assert_eq!(store.size(), (4, 4));
    let ops = act(Action::Resized, &mut store, (4, -1));
    assert!(ops.is_empty());
    assert_eq!(store.size(), (4, 4));
}

#[test]
fn style_and_mode_actions() {
    let mut store = Store::new(5, 2);
    let ops = act(Action::SetFg(Color::Red), &mut store, (0, 0));
    assert_eq!(shown(&ops), vec!["SetFg(Red)"]);
    let ops = act(Action::SetBg(Color::Blue), &mut store, (0, 0));
    assert_eq!(shown(&ops), vec!["SetBg(Blue)"]);
    let ops = act(Action::SetFx(0x400), &mut store, (0, 0));
    assert_eq!(shown(&ops), vec!["SetFx(1024)"]);
    store.sync_content("a");
    assert_eq!(
        store.render()[..4],
        [Paint::Fg(Color::Red), Paint::Bg(Color::Blue), Paint::Fx(0x400), Paint::Put('a')]
    );
    let ops = act(Action::SetStyles(Color::Green, Color::Reset, 0x200), &mut store, (0, 0));
    assert_eq!(shown(&ops), vec!["SetStyles(Green, Reset, 512)"]);
    let ops = act(Action::ResetStyles, &mut store, (0, 0));
    assert_eq!(shown(&ops), vec!["ResetStyles"]);
    store.sync_content("b");
    assert_eq!(store.render()[4..7], [Paint::Reset, Paint::Put('b'), Paint::Put(' ')]);
    assert_eq!(shown(&act(Action::HideCursor, &mut store, (0, 0))), vec!["HideCursor"]);
    assert!(!store.is_cursor());
    assert_eq!(shown(&act(Action::ShowCursor, &mut store, (0, 0))), vec!["ShowCursor"]);
    assert!(store.is_cursor());
    assert_eq!(shown(&act(Action::EnableMouse, &mut store, (0, 0))), vec!["EnableMouse"]);
    assert!(store.is_mouse());
    assert_eq!(shown(&act(Action::DisableMouse, &mut store, (0, 0))), vec!["DisableMouse"]);
    assert!(!store.is_mouse());
    assert_eq!(shown(&act(Action::Raw, &mut store, (0, 0))), vec!["Raw"]);
    assert!(store.is_raw());
    assert_eq!(shown(&act(Action::Cook, &mut store, (0, 0))), vec!["Cook"]);
    assert!(!store.is_raw());
}

#[test]
fn model_only_actions() {
    let mut store = Store::new(9, 2);
    store.sync_goto(4, 1);
    assert!(act(Action::SyncMarker(1, 0), &mut store, (0, 0)).is_empty());
    assert!(act(Action::Jump, &mut store, (0, 0)).is_empty());
    assert_eq!(store.coord(), (1, 0));
    assert!(act(Action::SyncTabSize(0), &mut store, (0, 0)).is_empty());
    store.sync_content("\t");
    assert_eq!(store.coord(), (8, 0));
    assert!(act(Action::SyncTabSize(3), &mut store, (0, 0)).is_empty());
    store.sync_goto(0, 1);
    store.sync_content("\t");
    assert_eq!(store.coord(), (3, 1));
}

#[test]
fn new_screen_and_switch() {
    let mut store = Store::new(2, 1);
    store.sync_content("m");
    let ops = act(Action::Raw, &mut store, (0, 0));
    assert_eq!(shown(&ops), vec!["Raw"]);
    let ops = act(Action::NewScreen, &mut store, (0, 0));
    assert_eq!(
        shown(&ops),
        vec!["EnableAlt", "Cook", "DisableMouse", "ShowCursor", "ResetStyles", "Goto(0, 0)", "Flush"]
    );
    assert_eq!(store.id(), 1);
    assert_eq!(store.size(), (2, 1));
    store.sync_content("a");
    let ops = act(Action::NewScreen, &mut store, (0, 0));
    assert_eq!(
        shown(&ops),
        vec!["Clear(All)", "Cook", "DisableMouse", "ShowCursor", "ResetStyles", "Goto(0, 0)", "Flush"]
    );
    assert_eq!(store.id(), 2);
    // To the screen that is current, and to one that is missing.
    assert!(act(Action::SwitchTo(2), &mut store, (0, 0)).is_empty());
    assert!(act(Action::SwitchTo(7), &mut store, (0, 0)).is_empty());
    assert_eq!(store.id(), 2);
    let ops = act(Action::SwitchTo(1), &mut store, (0, 0));
    assert_eq!(
        shown(&ops),
        vec![
            "Clear(All)",
            "Goto(0, 0)",
            "Paint([Put('a'), Put(' ')])",
            "Goto(1, 0)",
            "Flush",
            "Cook",
            "DisableMouse",
            "ShowCursor",
            "Flush",
        ]
    );
    assert_eq!(store.id(), 1);
    assert_eq!(store.refresh(), vec![]);
    let ops = act(Action::SwitchTo(0), &mut store, (0, 0));
    assert_eq!(shown(&ops), vec!["DisableAlt", "Raw", "DisableMouse", "ShowCursor", "Flush"]);
    assert_eq!(store.id(), 0);
    store.sync_mouse(true);
    store.sync_cursor(false);
    store.set(1).unwrap();
    store.set(0).unwrap();
    let ops = act(Action::SwitchTo(2), &mut store, (0, 0));
    assert_eq!(
        shown(&ops),
        vec![
            "EnableAlt",
            "Clear(All)",
            "Goto(0, 0)",
            "Paint([Put(' '), Put(' ')])",
            "Goto(0, 0)",
            "Flush",
            "Cook",
            "DisableMouse",
            "ShowCursor",
            "Flush",
        ]
    );
}

#[test]
fn console_does_not_flush_after_a_switch() {
    let mut store = Store::with_platform(2, 1, Platform::Console);
    let ops = act(Action::NewScreen, &mut store, (0, 0));
    assert_eq!(
        shown(&ops),
        vec!["EnableAlt", "Cook", "DisableMouse", "ShowCursor", "ResetStyles", "Goto(0, 0)"]
    );
    let ops = act(Action::SwitchTo(0), &mut store, (0, 0));
    assert_eq!(shown(&ops), vec!["DisableAlt", "Cook", "DisableMouse", "ShowCursor"]);
    store.sync_content("a\nb");
    assert_eq!(store.coord(), (1, 0));
}

#[test]
fn registry_flags() {
    let mut roster = roster_of(&[3, 5]);
    assert!(!roster[&3].is_suspend && roster[&3].is_running);
    suspend(3, &mut roster);
    assert!(roster[&3].is_suspend);
    assert!(!roster[&5].is_suspend);
    transmit(3, &mut roster);
    assert!(!roster[&3].is_suspend);
    stop(5, &mut roster);
    assert!(!roster[&5].is_running);
    assert!(roster[&3].is_running);
    suspend(9, &mut roster);
    stop(9, &mut roster);
    assert_eq!(roster.len(), 2);
    let mut ids = all_ids(&roster);
    ids.sort();
    assert_eq!(ids, vec![3, 5]);
    sweep(&mut roster);
    assert_eq!(all_ids(&roster), vec![3]);
    sweep(&mut roster);
    assert_eq!(all_ids(&roster), vec![3]);
}

#[test]
fn registry_ids() {
    let roster = roster_of(&[3]);
    assert!(!vacant(&roster, 0));
    assert!(!vacant(&roster, 3));
    assert!(vacant(&roster, 4));
}

#[test]
fn input_lock() {
    assert_eq!(lock(4, 0), 4);
    assert_eq!(lock(4, 9), 9);
    assert_eq!(unlock(9), 0);
    assert_eq!(unlock(0), 0);
}

#[test]
fn input_goes_to_all_that_are_not_suspended() {
    let mut roster = roster_of(&[1, 2, 3]);
    suspend(2, &mut roster);
    let mut d = route(&roster, 0);
    d.to.sort();
    assert_eq!(d.to, vec![1, 3]);
    assert_eq!(d.lock_owner, 0);
}

#[test]
fn locked_input_goes_to_the_owner_alone() {
    let mut roster = roster_of(&[1, 2, 3]);
    suspend(2, &mut roster);
    let d = route(&roster, 2);
    assert_eq!(d.to, vec![2]);
    assert_eq!(d.lock_owner, 2);
    let d = route(&roster, 8);
    assert!(d.to.is_empty());
    assert_eq!(d.lock_owner, 0);
}

#[test]
fn queries_answer_the_registered_asker() {
    let mut store = Store::new(5, 2);
    store.sync_content("ab");
    store.sync_left(1);
    let roster = roster_of(&[7]);
    assert_eq!(told(&examine(Query::Size(7), &store, &roster, 0)), vec!["Respond(7, Size(5, 2))"]);
    assert_eq!(told(&examine(Query::Coord(7), &store, &roster, 0)), vec!["Respond(7, Coord(1, 0))"]);
    assert_eq!(told(&examine(Query::GetCh(7), &store, &roster, 0)), vec!["Respond(7, GetCh(\"b\"))"]);
    assert_eq!(told(&examine(Query::Screen(7), &store, &roster, 0)), vec!["Respond(7, Screen(0))"]);
    assert_eq!(told(&request(Query::IsRaw(7), &store, &roster, 0)), vec!["Respond(7, IsRaw(false))"]);
    assert!(examine(Query::Size(8), &store, &roster, 0).is_empty());
    assert!(examine(Query::Coord(8), &store, &roster, 0).is_empty());
    assert!(examine(Query::GetCh(8), &store, &roster, 0).is_empty());
    assert!(examine(Query::Screen(8), &store, &roster, 0).is_empty());
    assert!(examine(Query::IsRaw(8), &store, &roster, 0).is_empty());
}

#[test]
fn position_query_locks_the_input() {
    let store = Store::new(5, 2);
    let roster = roster_of(&[7]);
    assert_eq!(
        told(&examine(Query::Pos(7), &store, &roster, 0)),
        vec!["Owner(7)", "Device(QueryPos)", "Owner(0)"]
    );
    assert!(examine(Query::Pos(7), &store, &roster, 3).is_empty());
    let store = Store::with_platform(5, 2, Platform::Console);
    assert_eq!(told(&examine(Query::Pos(7), &store, &roster, 3)), vec!["ReportPos(7)"]);
    assert!(examine(Query::Pos(8), &store, &roster, 0).is_empty());
}

#[test]
fn dispatch_handles_each_command() {
    let mut store = Store::new(5, 2);
    let mut roster = roster_of(&[1, 2]);
    assert!(run(Cmd::Continue, &mut store, &mut roster, 0, (5, 2)).is_empty());
    assert!(run(Cmd::Suspend(1), &mut store, &mut roster, 0, (5, 2)).is_empty());
    assert!(roster[&1].is_suspend);
    assert!(run(Cmd::Transmit(1), &mut store, &mut roster, 0, (5, 2)).is_empty());
    assert!(!roster[&1].is_suspend);
    assert!(run(Cmd::Stop(2), &mut store, &mut roster, 0, (5, 2)).is_empty());
    assert!(!roster[&2].is_running);
    assert_eq!(told(&run(Cmd::Lock(1), &mut store, &mut roster, 0, (5, 2))), vec!["Owner(1)"]);
    assert!(run(Cmd::Lock(1), &mut store, &mut roster, 2, (5, 2)).is_empty());
    assert_eq!(told(&run(Cmd::Unlock, &mut store, &mut roster, 2, (5, 2))), vec!["Owner(0)"]);
    assert!(run(Cmd::Unlock, &mut store, &mut roster, 0, (5, 2)).is_empty());
    assert_eq!(
        told(&run(Cmd::Signal(Action::Goto(3, 1)), &mut store, &mut roster, 0, (5, 2))),
        vec!["Device(Goto(3, 1))"]
    );
    assert_eq!(
        told(&run(Cmd::Request(Query::Coord(1)), &mut store, &mut roster, 0, (5, 2))),
        vec!["Respond(1, Coord(3, 1))"]
    );
    assert_eq!(
        told(&run(Cmd::Signal(Action::NewScreen), &mut store, &mut roster, 0, (5, 2))),
        vec![
            "Device(EnableAlt)",
            "Device(Cook)",
            "Device(DisableMouse)",
            "Device(ShowCursor)",
            "Device(ResetStyles)",
            "Device(Goto(0, 0))",
            "Device(Flush)",
        ]
    );
    assert_eq!(
        told(&run(Cmd::Request(Query::Screen(1)), &mut store, &mut roster, 0, (5, 2))),
        vec!["Respond(1, Screen(1))"]
    );
    let steps = run(Cmd::Signal(Action::SwitchTo(0)), &mut store, &mut roster, 0, (5, 2));
    assert_eq!(told(&steps)[0], "Device(DisableAlt)");
    assert_eq!(
        told(&run(Cmd::Request(Query::Screen(1)), &mut store, &mut roster, 0, (5, 2))),
        vec!["Respond(1, Screen(0))"]
    );
}

#[test]
fn handle_commands_carry_its_id() {
    let h = EventHandle::new(6, Platform::Ansi);
    assert!(matches!(h.suspend(), Cmd::Suspend(6)));
    assert!(matches!(h.transmit(), Cmd::Transmit(6)));
    assert!(matches!(h.stop(), Cmd::Stop(6)));
    assert!(matches!(h.lock(), Cmd::Lock(6)));
    assert!(matches!(h.unlock(), Cmd::Unlock));
    assert!(matches!(h.signal(Action::Goto(1, 2)), Cmd::Signal(Action::Goto(1, 2))));
    let r: EventReceiver = h;
    assert_eq!(r.id, 6);
}

#[test]
fn latest_message_wins() {
    let h = EventHandle::new(6, Platform::Ansi);
    assert!(h.poll_latest_async(vec![]).is_none());
    let got = h.poll_latest_async(vec![
        Msg::Unsupported,
        Msg::Received(InputEvent::Keyboard(KeyEvent::Enter)),
    ]);
    assert!(matches!(got, Some(Msg::Received(InputEvent::Keyboard(KeyEvent::Enter)))));
}

#[test]
fn plain_request_waits_for_the_response() {
    let h = EventHandle::new(6, Platform::Ansi);
    let turn = h.request("coord");
    assert!(matches!(turn.send[..], [Cmd::Request(Query::Coord(6))]));
    assert!(matches!(turn.next, Progress::Pending(Wait::Response)));
    assert!(matches!(h.request("getch").send[..], [Cmd::Request(Query::GetCh(6))]));
    assert!(matches!(h.request("size").send[..], [Cmd::Request(Query::Size(6))]));
    assert!(matches!(h.request("screen").send[..], [Cmd::Request(Query::Screen(6))]));
    let turn = h.receive(Wait::Response, Msg::Received(InputEvent::Unsupported));
    assert!(turn.send.is_empty());
    assert!(matches!(turn.next, Progress::Pending(Wait::Response)));
    let turn = h.receive(Wait::Response, Msg::Response(Reply::Coord(3, 1)));
    assert!(turn.send.is_empty());
    assert!(matches!(turn.next, Progress::Done(Reply::Coord(3, 1))));
}

#[test]
fn unknown_request_is_answered_at_once() {
    let h = EventHandle::new(6, Platform::Ansi);
    let turn = h.request("colour");
    assert!(turn.send.is_empty());
    assert!(matches!(turn.next, Progress::Done(Reply::Empty)));
    let turn = h.request("");
    assert!(matches!(turn.next, Progress::Done(Reply::Empty)));
    let turn = h.request("coords");
    assert!(matches!(turn.next, Progress::Done(Reply::Empty)));
}

#[test]
fn position_request_makes_the_screen_raw_and_cooks_it_again() {
    let h = EventHandle::new(6, Platform::Ansi);
    let turn = h.request("pos");
    assert!(matches!(turn.send[..], [Cmd::Request(Query::IsRaw(6))]));
    assert!(matches!(turn.next, Progress::Pending(Wait::IsRaw)));
    let turn = h.receive(Wait::IsRaw, Msg::Response(Reply::Size(1, 1)));
    assert!(turn.send.is_empty());
    assert!(matches!(turn.next, Progress::Pending(Wait::IsRaw)));
    let turn = h.receive(Wait::IsRaw, Msg::Response(Reply::IsRaw(false)));
    assert!(matches!(turn.send[..], [Cmd::Signal(Action::Raw), Cmd::Request(Query::Pos(6))]));
    assert!(matches!(turn.next, Progress::Pending(Wait::Position(true))));
    let turn = h.receive(Wait::Position(true), Msg::Received(InputEvent::Keyboard(KeyEvent::Up)));
    assert!(turn.send.is_empty());
    assert!(matches!(turn.next, Progress::Pending(Wait::Position(true))));
    let turn = h.receive(Wait::Position(true), Msg::Received(InputEvent::CursorPos(4, 2)));
    assert!(matches!(turn.send[..], [Cmd::Signal(Action::Cook)]));
    assert!(matches!(turn.next, Progress::Done(Reply::Pos(4, 2))));
}

#[test]
fn position_request_leaves_a_raw_screen_raw() {
    let h = EventHandle::new(6, Platform::Ansi);
    let turn = h.receive(Wait::IsRaw, Msg::Response(Reply::IsRaw(true)));
    assert!(matches!(turn.send[..], [Cmd::Request(Query::Pos(6))]));
    assert!(matches!(turn.next, Progress::Pending(Wait::Position(false))));
    let turn = h.receive(Wait::Position(false), Msg::Received(InputEvent::CursorPos(0, 0)));
    assert!(turn.send.is_empty());
    assert!(matches!(turn.next, Progress::Done(Reply::Pos(0, 0))));
}

#[test]
fn console_position_request_is_a_plain_request() {
    let h = EventHandle::new(6, Platform::Console);
    let turn = h.request("pos");
    assert!(matches!(turn.send[..], [Cmd::Request(Query::Pos(6))]));
    assert!(matches!(turn.next, Progress::Pending(Wait::Response)));
    let turn = h.receive(Wait::Response, Msg::Response(Reply::Pos(2, 3)));
    assert!(matches!(turn.next, Progress::Done(Reply::Pos(2, 3))));
}
