//! The small value types the device objects use, and the alias pattern for
//! naming ports.

use ftswarm::command::argument::Argument;
use ftswarm::command::enums::ToggleType;
use ftswarm::swarm_object::actor::ValueState;
use ftswarm::swarm_object::led::LedColor;
use ftswarm::swarm_object::NormallyOpen;

struct Outputs {}

impl Outputs {
    const LED1: &'static str = "led1";
    const LED2: &'static str = "led2";
}

struct Inputs {}

impl Inputs {
    const SWITCH: &'static str = "switch";
}

#[test]
fn test_aliases() {
    assert_eq!(Outputs::LED1, "led1");
    assert_eq!(Outputs::LED2, "led2");
    assert_eq!(Inputs::SWITCH, "switch");
}

#[test]
fn led_color_constants_and_packing() {
    assert_eq!(LedColor::red(), LedColor::new(255, 0, 0));
    assert_eq!(LedColor::white(), LedColor::rgb(255, 255, 255));
    assert_eq!(LedColor::off(), LedColor::new(0, 0, 0));
    assert_eq!(LedColor::new(1, 2, 3).to_i64(), 0x010203);
    assert_eq!(LedColor::magenta().to_i64(), 0xff00ff);
}

#[test]
fn led_color_parsing() {
    assert_eq!(LedColor::parse("#ff0080"), Some(LedColor::new(255, 0, 128)));
    assert_eq!(LedColor::parse("##ff0080"), Some(LedColor::new(255, 0, 128)));
    assert_eq!(LedColor::parse("#ff00"), None);
    assert_eq!(LedColor::parse("#ggff00"), None);
    assert_eq!(LedColor::parse("12,34,56"), Some(LedColor::new(12, 34, 56)));
    assert_eq!(LedColor::parse("1,2"), None);
    assert_eq!(LedColor::parse("1,x,3"), None);
    assert_eq!(LedColor::parse("RED"), Some(LedColor::new(255, 0, 0)));
    assert_eq!(LedColor::parse("Cyan"), Some(LedColor::new(0, 255, 255)));
    assert_eq!(LedColor::parse("mauve"), None);
}

#[test]
fn toggle_type_from_integer() {
    assert!(matches!(ToggleType::from(1), ToggleType::Up));
    assert!(matches!(ToggleType::from(2), ToggleType::Down));
    assert!(matches!(ToggleType::from(0), ToggleType::NoToggle));
    assert!(matches!(ToggleType::from(-3), ToggleType::NoToggle));
}

#[test]
fn value_state_conversions() {
    assert_eq!(ValueState::from(true).to_i64(), 255);
    assert_eq!(ValueState::from(false).to_i64(), 0);
    assert_eq!(ValueState::Reverse.to_i64(), -255);
}

#[test]
fn normally_open_wire_argument() {
    assert!(matches!(NormallyOpen::Open.into_argument(), Argument::Int(0)));
    assert!(matches!(NormallyOpen::Closed.into_argument(), Argument::Int(1)));
}
