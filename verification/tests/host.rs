use app_host::{App, AppError, Color, MouseInput, RunLoop, FULL_CHANNEL, LIGHT_CHANNEL};

type Host = App<u8, &'static str, Vec<u32>>;

fn host(max: Option<(u32, u32)>) -> Host {
    let made: Result<Host, AppError<String>> = App::new(7, max, Ok("window"), vec![1, 2]);
    made.unwrap()
}

#[test]
fn new_takes_dimensions_from_hint() {
    let app = host(Some((1024, 768)));
    assert_eq!(app.dimensions(), (1024, 768));
}

#[test]
fn new_defaults_dimensions_to_zero() {
    let app = host(None);
    assert_eq!(app.dimensions(), (0, 0));
}

#[test]
fn new_holds_what_it_was_given() {
    let app = host(None);
    assert_eq!(*app.window(), "window");
    assert_eq!(*app.renderer(), vec![1, 2]);
    assert!(app.is_idle());
    assert!(app.exit_by_escape());
    assert_eq!(app.background_color(), Color::light_grey());
}

#[test]
fn new_reports_failed_creation() {
    let made: Result<Host, AppError<String>> =
        App::new(7, Some((3, 4)), Err(String::from("no display")), vec![]);
    assert_eq!(made.unwrap_err(), AppError::CreationError(String::from("no display")));
}

#[test]
fn default_background_is_light_grey() {
    assert_eq!(LIGHT_CHANNEL, 0.8f32.to_bits());
    assert_eq!(FULL_CHANNEL, 1.0f32.to_bits());
    let grey = Color::light_grey();
    assert_eq!(grey.as_arr(), [LIGHT_CHANNEL, LIGHT_CHANNEL, LIGHT_CHANNEL, FULL_CHANNEL]);
    assert_eq!(f32::from_bits(grey.r), 0.8f32);
    assert_eq!(f32::from_bits(grey.a), 1.0f32);
}

#[test]
fn color_channels_come_in_order() {
    let c = Color { r: 1, g: 2, b: 3, a: 4 };
    assert_eq!(c.as_arr(), [1, 2, 3, 4]);
}

#[test]
fn builders_change_one_setting_each() {
    let red = Color { r: FULL_CHANNEL, g: 0, b: 0, a: FULL_CHANNEL };
    let app = host(Some((5, 6))).with_background_color(red);
    assert_eq!(app.background_color(), red);
    assert!(app.exit_by_escape());
    assert_eq!(app.dimensions(), (5, 6));
    let app = app.with_exit_by_escape(false);
    assert!(!app.exit_by_escape());
    assert_eq!(app.background_color(), red);
    assert_eq!(app.dimensions(), (5, 6));
    assert!(app.is_idle());
}

#[test]
fn init_hands_out_the_clear_color() {
    let blue = Color { r: 0, g: 0, b: FULL_CHANNEL, a: FULL_CHANNEL };
    let app = host(None).with_background_color(blue);
    let clear: Result<Color, AppError<String>> = app.init(Ok(()));
    assert_eq!(clear, Ok(blue));
}

#[test]
fn init_reports_context_failure() {
    let app = host(None);
    let clear: Result<Color, AppError<String>> = app.init(Err(String::from("lost")));
    assert_eq!(clear, Err(AppError::ContextError(String::from("lost"))));
}

#[test]
fn init_renderer_wraps_backend_error() {
    let app = host(None);
    assert_eq!(app.init_renderer::<String>(Ok(())), Ok(()));
    assert_eq!(
        app.init_renderer(Err(String::from("no shader"))),
        Err(AppError::RendererError(String::from("no shader")))
    );
}

#[test]
fn renderer_mut_changes_the_renderer_only() {
    let mut app = host(Some((9, 9)));
    app.renderer_mut().push(3);
    assert_eq!(*app.renderer(), vec![1, 2, 3]);
    assert_eq!(app.dimensions(), (9, 9));
    assert_eq!(*app.window(), "window");
    assert!(app.is_idle());
}

#[test]
fn second_run_fails_while_first_is_active() {
    let mut app = host(Some((2, 3)));
    let (source, run): (u8, RunLoop<String>) = app.run_proc().unwrap();
    assert_eq!(source, 7);
    assert!(!app.is_idle());
    let again: Result<(u8, RunLoop<String>), AppError<String>> = app.run();
    assert_eq!(again.unwrap_err(), AppError::EventsLoopIsNone);
    let again: Result<(u8, RunLoop<String>), AppError<String>> = app.run_proc();
    assert_eq!(again.unwrap_err(), AppError::EventsLoopIsNone);
    assert!(!app.is_idle());
    assert_eq!(app.dimensions(), (2, 3));
    assert_eq!(*app.window(), "window");
    assert_eq!(run.finish(&mut app, source), Ok(()));
    assert!(app.is_idle());
    let (source, run): (u8, RunLoop<String>) = app.run().unwrap();
    assert_eq!(source, 7);
    assert_eq!(run.finish(&mut app, source), Ok(()));
    assert!(app.is_idle());
}

#[test]
fn pointer_tracker_starts_at_origin() {
    let mut mouse = MouseInput::new();
    assert_eq!(mouse.position(), (0, 0));
    mouse.update_pos(4, 5);
    assert_eq!(mouse.position(), (4, 5));
    mouse.update_pos(6, 7);
    assert_eq!(mouse.position(), (6, 7));
}
