use vstd::prelude::*;

use crate::GPIOPin;

verus! {

pub const GPIO_BUTTON_RED: GPIOPin = 4;
pub const GPIO_LED_RED: GPIOPin = 12;
pub const GPIO_BUTTON_GREEN: GPIOPin = 17;
pub const GPIO_LED_GREEN: GPIOPin = 16;
pub const GPIO_BUTTON_BLUE: GPIOPin = 27;
pub const GPIO_LED_BLUE: GPIOPin = 18;

pub const GPIO_LEDS: [GPIOPin; 3] = [GPIO_LED_RED, GPIO_LED_GREEN, GPIO_LED_BLUE];
pub const GPIO_BUTTONS: [GPIOPin; 3] = [GPIO_BUTTON_RED, GPIO_BUTTON_GREEN, GPIO_BUTTON_BLUE];

/// Whether `pin` is one of the buttons of this board layout.
pub open spec fn is_button(pin: GPIOPin) -> bool {
    pin == GPIO_BUTTON_RED || pin == GPIO_BUTTON_GREEN || pin == GPIO_BUTTON_BLUE
}

/// The LED wired next to each button of this board layout.
pub open spec fn led_of(button: GPIOPin) -> GPIOPin
    recommends
        is_button(button),
{
    if button == GPIO_BUTTON_RED {
        GPIO_LED_RED
    } else if button == GPIO_BUTTON_GREEN {
        GPIO_LED_GREEN
    } else {
        GPIO_LED_BLUE
    }
}

/// Mapping of buttons to their corresponding LEDs
///
/// A pin that is not a button of this layout is a wiring mistake of the caller,
/// so it is ruled out by the precondition.
pub fn get_led_from_button(button_gpio: GPIOPin) -> (led: GPIOPin)
    requires
        is_button(button_gpio),
    ensures
        led == led_of(button_gpio),
{
    match button_gpio {
        GPIO_BUTTON_RED => GPIO_LED_RED,
        GPIO_BUTTON_GREEN => GPIO_LED_GREEN,
        _ => GPIO_LED_BLUE,
    }
}

} // verus!
