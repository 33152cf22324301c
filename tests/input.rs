use tegne::input::KeyState;
use tegne::input::Keys;
use tegne::light::LightType;

#[test]
fn key_press_and_release() {
    let mut keys = Keys::new();
    keys.handle(65, KeyState::Pressed);
    assert!(keys.is_pressed(65));
    assert!(keys.is_typed(65));
    assert!(!keys.is_released(65));
    keys.clear_typed();
    assert!(keys.is_pressed(65));
    assert!(!keys.is_typed(65));
    keys.handle(65, KeyState::Released);
    assert!(!keys.is_pressed(65));
    assert!(keys.is_released(65));
    keys.handle(65, KeyState::Pressed);
    assert!(!keys.is_released(65));
}

#[test]
fn light_type_codes() {
    assert_eq!(LightType::Main.shader_code(), 0);
    assert_eq!(LightType::Directional.shader_code(), 1);
    assert_eq!(LightType::Point.shader_code(), 2);
}
