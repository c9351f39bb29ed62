//! Peripheral pin-location capability tables.
//!
//! A peripheral signal (USART TX/RX, I2C SCL/SDA) can only be routed to
//! a fixed, silicon-defined set of physical pins, and each legal pin has
//! a 5-bit location code that the peripheral's routing register expects.
//! The tables here reproduce the datasheet values verbatim, one lookup
//! function per (peripheral instance, signal role) pair: `Some(code)`
//! where the pin may serve the role, `None` where it may not. The debug
//! pins PF0-PF3 appear in no table (and are not even constructible, see
//! [`crate::pins`]).

use vstd::prelude::*;

use crate::pins::{PinId, Port};

verus! {

/// The four USART instances of the chip.
#[derive(Clone, Copy, PartialEq, Eq, Structural, Debug)]
pub enum UsartId {
    Usart0,
    Usart1,
    Usart2,
    Usart3,
}

/// The two I2C instances of the chip.
#[derive(Clone, Copy, PartialEq, Eq, Structural, Debug)]
pub enum I2cId {
    I2c0,
    I2c1,
}

/// Location code of `pin` for the USART TX signal role, as the datasheet gives it.
pub open spec fn spec_usart_tx_location(u: UsartId, pin: PinId) -> Option<u8> {
    match u {
        UsartId::Usart0 => spec_usart_tx_location_usart0(pin),
        UsartId::Usart1 => spec_usart_tx_location_usart1(pin),
        UsartId::Usart2 => spec_usart_tx_location_usart2(pin),
        UsartId::Usart3 => spec_usart_tx_location_usart3(pin),
    }
}

/// The TX location rows of USART0, verbatim from the datasheet.
pub open spec fn spec_usart_tx_location_usart0(pin: PinId) -> Option<u8> {
    match (pin.port_spec(), pin.bit_spec()) {
        (Port::A, 0) => Some(0u8),
        (Port::A, 1) => Some(1u8),
        (Port::A, 2) => Some(2u8),
        (Port::A, 3) => Some(3u8),
        (Port::A, 4) => Some(4u8),
        (Port::A, 5) => Some(5u8),
        (Port::B, 11) => Some(6u8),
        (Port::B, 12) => Some(7u8),
        (Port::B, 13) => Some(8u8),
        (Port::B, 14) => Some(9u8),
        (Port::B, 15) => Some(10u8),
        (Port::C, 6) => Some(11u8),
        (Port::C, 7) => Some(12u8),
        (Port::C, 8) => Some(13u8),
        (Port::C, 9) => Some(14u8),
        (Port::C, 10) => Some(15u8),
        (Port::C, 11) => Some(16u8),
        (Port::D, 9) => Some(17u8),
        (Port::D, 10) => Some(18u8),
        (Port::D, 11) => Some(19u8),
        (Port::D, 12) => Some(20u8),
        (Port::D, 13) => Some(21u8),
        (Port::D, 14) => Some(22u8),
        (Port::D, 15) => Some(23u8),
        (Port::F, 4) => Some(28u8),
        (Port::F, 5) => Some(29u8),
        (Port::F, 6) => Some(30u8),
        (Port::F, 7) => Some(31u8),
        _ => None,
    }
}

/// The TX location rows of USART1, verbatim from the datasheet.
pub open spec fn spec_usart_tx_location_usart1(pin: PinId) -> Option<u8> {
    match (pin.port_spec(), pin.bit_spec()) {
        (Port::A, 0) => Some(0u8),
        (Port::A, 1) => Some(1u8),
        (Port::A, 2) => Some(2u8),
        (Port::A, 3) => Some(3u8),
        (Port::A, 4) => Some(4u8),
        (Port::A, 5) => Some(5u8),
        (Port::B, 11) => Some(6u8),
        (Port::B, 12) => Some(7u8),
        (Port::B, 13) => Some(8u8),
        (Port::B, 14) => Some(9u8),
        (Port::B, 15) => Some(10u8),
        (Port::C, 6) => Some(11u8),
        (Port::C, 7) => Some(12u8),
        (Port::C, 8) => Some(13u8),
        (Port::C, 9) => Some(14u8),
        (Port::C, 10) => Some(15u8),
        (Port::C, 11) => Some(16u8),
        (Port::D, 9) => Some(17u8),
        (Port::D, 10) => Some(18u8),
        (Port::D, 11) => Some(19u8),
        (Port::D, 12) => Some(20u8),
        (Port::D, 13) => Some(21u8),
        (Port::D, 14) => Some(22u8),
        (Port::D, 15) => Some(23u8),
        (Port::F, 4) => Some(28u8),
        (Port::F, 5) => Some(29u8),
        (Port::F, 6) => Some(30u8),
        (Port::F, 7) => Some(31u8),
        _ => None,
    }
}

/// The TX location rows of USART2, verbatim from the datasheet.
pub open spec fn spec_usart_tx_location_usart2(pin: PinId) -> Option<u8> {
    match (pin.port_spec(), pin.bit_spec()) {
        (Port::A, 5) => Some(0u8),
        (Port::A, 6) => Some(1u8),
        (Port::A, 7) => Some(2u8),
        (Port::A, 8) => Some(3u8),
        (Port::A, 9) => Some(4u8),
        (Port::I, 0) => Some(5u8),
        (Port::I, 1) => Some(6u8),
        (Port::I, 2) => Some(7u8),
        (Port::I, 3) => Some(8u8),
        (Port::B, 6) => Some(9u8),
        (Port::B, 7) => Some(10u8),
        (Port::B, 8) => Some(11u8),
        (Port::B, 9) => Some(12u8),
        (Port::B, 10) => Some(13u8),
        (Port::F, 4) => Some(17u8),
        (Port::F, 5) => Some(18u8),
        (Port::F, 6) => Some(19u8),
        (Port::F, 7) => Some(20u8),
        (Port::F, 8) => Some(21u8),
        (Port::F, 9) => Some(22u8),
        (Port::F, 10) => Some(23u8),
        (Port::F, 11) => Some(24u8),
        (Port::F, 12) => Some(25u8),
        (Port::F, 13) => Some(26u8),
        (Port::F, 14) => Some(27u8),
        (Port::F, 15) => Some(28u8),
        (Port::K, 0) => Some(29u8),
        (Port::K, 1) => Some(30u8),
        (Port::K, 2) => Some(31u8),
        _ => None,
    }
}

/// The TX location rows of USART3, verbatim from the datasheet.
pub open spec fn spec_usart_tx_location_usart3(pin: PinId) -> Option<u8> {
    match (pin.port_spec(), pin.bit_spec()) {
        (Port::D, 8) => Some(0u8),
        (Port::D, 9) => Some(1u8),
        (Port::D, 10) => Some(2u8),
        (Port::D, 11) => Some(3u8),
        (Port::D, 12) => Some(4u8),
        (Port::D, 13) => Some(5u8),
        (Port::D, 14) => Some(6u8),
        (Port::D, 15) => Some(7u8),
        (Port::I, 2) => Some(8u8),
        (Port::I, 3) => Some(9u8),
        (Port::B, 6) => Some(10u8),
        (Port::B, 7) => Some(11u8),
        (Port::B, 8) => Some(12u8),
        (Port::B, 9) => Some(13u8),
        (Port::B, 10) => Some(14u8),
        (Port::B, 11) => Some(15u8),
        (Port::J, 14) => Some(16u8),
        (Port::J, 15) => Some(17u8),
        (Port::C, 0) => Some(18u8),
        (Port::C, 1) => Some(19u8),
        (Port::C, 2) => Some(20u8),
        (Port::C, 3) => Some(21u8),
        (Port::C, 4) => Some(22u8),
        (Port::C, 5) => Some(23u8),
        (Port::F, 11) => Some(24u8),
        (Port::F, 12) => Some(25u8),
        (Port::F, 13) => Some(26u8),
        (Port::F, 14) => Some(27u8),
        (Port::F, 15) => Some(28u8),
        (Port::K, 0) => Some(29u8),
        (Port::K, 1) => Some(30u8),
        (Port::K, 2) => Some(31u8),
        _ => None,
    }
}

/// Marks the USART TX signal role.
pub struct TxPin;

impl TxPin {
    /// Looks `pin` up in the USART TX signal role table of `u`: the routing code where
    /// the pin may serve the role, `None` where it may not.
    pub fn location(u: UsartId, pin: PinId) -> (r: Option<u8>)
        ensures
            r == spec_usart_tx_location(u, pin),
    {
        match u {
            UsartId::Usart0 => {
                match (pin.port(), pin.bit()) {
                    (Port::A, 0) => Some(0u8),
                    (Port::A, 1) => Some(1u8),
                    (Port::A, 2) => Some(2u8),
                    (Port::A, 3) => Some(3u8),
                    (Port::A, 4) => Some(4u8),
                    (Port::A, 5) => Some(5u8),
                    (Port::B, 11) => Some(6u8),
                    (Port::B, 12) => Some(7u8),
                    (Port::B, 13) => Some(8u8),
                    (Port::B, 14) => Some(9u8),
                    (Port::B, 15) => Some(10u8),
                    (Port::C, 6) => Some(11u8),
                    (Port::C, 7) => Some(12u8),
                    (Port::C, 8) => Some(13u8),
                    (Port::C, 9) => Some(14u8),
                    (Port::C, 10) => Some(15u8),
                    (Port::C, 11) => Some(16u8),
                    (Port::D, 9) => Some(17u8),
                    (Port::D, 10) => Some(18u8),
                    (Port::D, 11) => Some(19u8),
                    (Port::D, 12) => Some(20u8),
                    (Port::D, 13) => Some(21u8),
                    (Port::D, 14) => Some(22u8),
                    (Port::D, 15) => Some(23u8),
                    (Port::F, 4) => Some(28u8),
                    (Port::F, 5) => Some(29u8),
                    (Port::F, 6) => Some(30u8),
                    (Port::F, 7) => Some(31u8),
                    _ => None,
                }
            },
            UsartId::Usart1 => {
                match (pin.port(), pin.bit()) {
                    (Port::A, 0) => Some(0u8),
                    (Port::A, 1) => Some(1u8),
                    (Port::A, 2) => Some(2u8),
                    (Port::A, 3) => Some(3u8),
                    (Port::A, 4) => Some(4u8),
                    (Port::A, 5) => Some(5u8),
                    (Port::B, 11) => Some(6u8),
                    (Port::B, 12) => Some(7u8),
                    (Port::B, 13) => Some(8u8),
                    (Port::B, 14) => Some(9u8),
                    (Port::B, 15) => Some(10u8),
                    (Port::C, 6) => Some(11u8),
                    (Port::C, 7) => Some(12u8),
                    (Port::C, 8) => Some(13u8),
                    (Port::C, 9) => Some(14u8),
                    (Port::C, 10) => Some(15u8),
                    (Port::C, 11) => Some(16u8),
                    (Port::D, 9) => Some(17u8),
                    (Port::D, 10) => Some(18u8),
                    (Port::D, 11) => Some(19u8),
                    (Port::D, 12) => Some(20u8),
                    (Port::D, 13) => Some(21u8),
                    (Port::D, 14) => Some(22u8),
                    (Port::D, 15) => Some(23u8),
                    (Port::F, 4) => Some(28u8),
                    (Port::F, 5) => Some(29u8),
                    (Port::F, 6) => Some(30u8),
                    (Port::F, 7) => Some(31u8),
                    _ => None,
                }
            },
            UsartId::Usart2 => {
                match (pin.port(), pin.bit()) {
                    (Port::A, 5) => Some(0u8),
                    (Port::A, 6) => Some(1u8),
                    (Port::A, 7) => Some(2u8),
                    (Port::A, 8) => Some(3u8),
                    (Port::A, 9) => Some(4u8),
                    (Port::I, 0) => Some(5u8),
                    (Port::I, 1) => Some(6u8),
                    (Port::I, 2) => Some(7u8),
                    (Port::I, 3) => Some(8u8),
                    (Port::B, 6) => Some(9u8),
                    (Port::B, 7) => Some(10u8),
                    (Port::B, 8) => Some(11u8),
                    (Port::B, 9) => Some(12u8),
                    (Port::B, 10) => Some(13u8),
                    (Port::F, 4) => Some(17u8),
                    (Port::F, 5) => Some(18u8),
                    (Port::F, 6) => Some(19u8),
                    (Port::F, 7) => Some(20u8),
                    (Port::F, 8) => Some(21u8),
                    (Port::F, 9) => Some(22u8),
                    (Port::F, 10) => Some(23u8),
                    (Port::F, 11) => Some(24u8),
                    (Port::F, 12) => Some(25u8),
                    (Port::F, 13) => Some(26u8),
                    (Port::F, 14) => Some(27u8),
                    (Port::F, 15) => Some(28u8),
                    (Port::K, 0) => Some(29u8),
                    (Port::K, 1) => Some(30u8),
                    (Port::K, 2) => Some(31u8),
                    _ => None,
                }
            },
            UsartId::Usart3 => {
                match (pin.port(), pin.bit()) {
                    (Port::D, 8) => Some(0u8),
                    (Port::D, 9) => Some(1u8),
                    (Port::D, 10) => Some(2u8),
                    (Port::D, 11) => Some(3u8),
                    (Port::D, 12) => Some(4u8),
                    (Port::D, 13) => Some(5u8),
                    (Port::D, 14) => Some(6u8),
                    (Port::D, 15) => Some(7u8),
                    (Port::I, 2) => Some(8u8),
                    (Port::I, 3) => Some(9u8),
                    (Port::B, 6) => Some(10u8),
                    (Port::B, 7) => Some(11u8),
                    (Port::B, 8) => Some(12u8),
                    (Port::B, 9) => Some(13u8),
                    (Port::B, 10) => Some(14u8),
                    (Port::B, 11) => Some(15u8),
                    (Port::J, 14) => Some(16u8),
                    (Port::J, 15) => Some(17u8),
                    (Port::C, 0) => Some(18u8),
                    (Port::C, 1) => Some(19u8),
                    (Port::C, 2) => Some(20u8),
                    (Port::C, 3) => Some(21u8),
                    (Port::C, 4) => Some(22u8),
                    (Port::C, 5) => Some(23u8),
                    (Port::F, 11) => Some(24u8),
                    (Port::F, 12) => Some(25u8),
                    (Port::F, 13) => Some(26u8),
                    (Port::F, 14) => Some(27u8),
                    (Port::F, 15) => Some(28u8),
                    (Port::K, 0) => Some(29u8),
                    (Port::K, 1) => Some(30u8),
                    (Port::K, 2) => Some(31u8),
                    _ => None,
                }
            },
        }
    }
}

/// Location code of `pin` for the USART RX signal role, as the datasheet gives it.
pub open spec fn spec_usart_rx_location(u: UsartId, pin: PinId) -> Option<u8> {
    match u {
        UsartId::Usart0 => spec_usart_rx_location_usart0(pin),
        UsartId::Usart1 => spec_usart_rx_location_usart1(pin),
        UsartId::Usart2 => spec_usart_rx_location_usart2(pin),
        UsartId::Usart3 => spec_usart_rx_location_usart3(pin),
    }
}

/// The RX location rows of USART0, verbatim from the datasheet.
pub open spec fn spec_usart_rx_location_usart0(pin: PinId) -> Option<u8> {
    match (pin.port_spec(), pin.bit_spec()) {
        (Port::A, 1) => Some(0u8),
        (Port::A, 2) => Some(1u8),
        (Port::A, 3) => Some(2u8),
        (Port::A, 4) => Some(3u8),
        (Port::A, 5) => Some(4u8),
        (Port::B, 11) => Some(5u8),
        (Port::B, 12) => Some(6u8),
        (Port::B, 13) => Some(7u8),
        (Port::B, 14) => Some(8u8),
        (Port::B, 15) => Some(9u8),
        (Port::C, 6) => Some(10u8),
        (Port::C, 7) => Some(11u8),
        (Port::C, 8) => Some(12u8),
        (Port::C, 9) => Some(13u8),
        (Port::C, 10) => Some(14u8),
        (Port::C, 11) => Some(15u8),
        (Port::D, 9) => Some(16u8),
        (Port::D, 10) => Some(17u8),
        (Port::D, 11) => Some(18u8),
        (Port::D, 12) => Some(19u8),
        (Port::D, 13) => Some(20u8),
        (Port::D, 14) => Some(21u8),
        (Port::D, 15) => Some(22u8),
        (Port::F, 4) => Some(27u8),
        (Port::F, 5) => Some(28u8),
        (Port::F, 6) => Some(29u8),
        (Port::F, 7) => Some(30u8),
        (Port::A, 0) => Some(31u8),
        _ => None,
    }
}

/// The RX location rows of USART1, verbatim from the datasheet.
pub open spec fn spec_usart_rx_location_usart1(pin: PinId) -> Option<u8> {
    match (pin.port_spec(), pin.bit_spec()) {
        (Port::A, 1) => Some(0u8),
        (Port::A, 2) => Some(1u8),
        (Port::A, 3) => Some(2u8),
        (Port::A, 4) => Some(3u8),
        (Port::A, 5) => Some(4u8),
        (Port::B, 11) => Some(5u8),
        (Port::B, 12) => Some(6u8),
        (Port::B, 13) => Some(7u8),
        (Port::B, 14) => Some(8u8),
        (Port::B, 15) => Some(9u8),
        (Port::C, 6) => Some(10u8),
        (Port::C, 7) => Some(11u8),
        (Port::C, 8) => Some(12u8),
        (Port::C, 9) => Some(13u8),
        (Port::C, 10) => Some(14u8),
        (Port::C, 11) => Some(15u8),
        (Port::D, 9) => Some(16u8),
        (Port::D, 10) => Some(17u8),
        (Port::D, 11) => Some(18u8),
        (Port::D, 12) => Some(19u8),
        (Port::D, 13) => Some(20u8),
        (Port::D, 14) => Some(21u8),
        (Port::D, 15) => Some(22u8),
        (Port::F, 4) => Some(27u8),
        (Port::F, 5) => Some(28u8),
        (Port::F, 6) => Some(29u8),
        (Port::F, 7) => Some(30u8),
        (Port::A, 0) => Some(31u8),
        _ => None,
    }
}

/// The RX location rows of USART2, verbatim from the datasheet.
pub open spec fn spec_usart_rx_location_usart2(pin: PinId) -> Option<u8> {
    match (pin.port_spec(), pin.bit_spec()) {
        (Port::A, 6) => Some(0u8),
        (Port::A, 7) => Some(1u8),
        (Port::A, 8) => Some(2u8),
        (Port::A, 9) => Some(3u8),
        (Port::I, 0) => Some(4u8),
        (Port::I, 1) => Some(5u8),
        (Port::I, 2) => Some(6u8),
        (Port::I, 3) => Some(7u8),
        (Port::B, 6) => Some(8u8),
        (Port::B, 7) => Some(9u8),
        (Port::B, 8) => Some(10u8),
        (Port::B, 9) => Some(11u8),
        (Port::B, 10) => Some(12u8),
        (Port::F, 4) => Some(16u8),
        (Port::F, 5) => Some(17u8),
        (Port::F, 6) => Some(18u8),
        (Port::F, 7) => Some(19u8),
        (Port::F, 8) => Some(20u8),
        (Port::F, 9) => Some(21u8),
        (Port::F, 10) => Some(22u8),
        (Port::F, 11) => Some(23u8),
        (Port::F, 12) => Some(24u8),
        (Port::F, 13) => Some(25u8),
        (Port::F, 14) => Some(26u8),
        (Port::F, 15) => Some(27u8),
        (Port::K, 0) => Some(28u8),
        (Port::K, 1) => Some(29u8),
        (Port::K, 2) => Some(30u8),
        (Port::A, 5) => Some(31u8),
        _ => None,
    }
}

/// The RX location rows of USART3, verbatim from the datasheet.
pub open spec fn spec_usart_rx_location_usart3(pin: PinId) -> Option<u8> {
    match (pin.port_spec(), pin.bit_spec()) {
        (Port::D, 9) => Some(0u8),
        (Port::D, 10) => Some(1u8),
        (Port::D, 11) => Some(2u8),
        (Port::D, 12) => Some(3u8),
        (Port::D, 13) => Some(4u8),
        (Port::D, 14) => Some(5u8),
        (Port::D, 15) => Some(6u8),
        (Port::I, 2) => Some(7u8),
        (Port::I, 3) => Some(8u8),
        (Port::B, 6) => Some(9u8),
        (Port::B, 7) => Some(10u8),
        (Port::B, 8) => Some(11u8),
        (Port::B, 9) => Some(12u8),
        (Port::B, 10) => Some(13u8),
        (Port::B, 11) => Some(14u8),
        (Port::J, 14) => Some(15u8),
        (Port::J, 15) => Some(16u8),
        (Port::C, 0) => Some(17u8),
        (Port::C, 1) => Some(18u8),
        (Port::C, 2) => Some(19u8),
        (Port::C, 3) => Some(20u8),
        (Port::C, 4) => Some(21u8),
        (Port::C, 5) => Some(22u8),
        (Port::F, 11) => Some(23u8),
        (Port::F, 12) => Some(24u8),
        (Port::F, 13) => Some(25u8),
        (Port::F, 14) => Some(26u8),
        (Port::F, 15) => Some(27u8),
        (Port::K, 0) => Some(28u8),
        (Port::K, 1) => Some(29u8),
        (Port::K, 2) => Some(30u8),
        (Port::D, 8) => Some(31u8),
        _ => None,
    }
}

/// Marks the USART RX signal role.
pub struct RxPin;

impl RxPin {
    /// Looks `pin` up in the USART RX signal role table of `u`: the routing code where
    /// the pin may serve the role, `None` where it may not.
    pub fn location(u: UsartId, pin: PinId) -> (r: Option<u8>)
        ensures
            r == spec_usart_rx_location(u, pin),
    {
        match u {
            UsartId::Usart0 => {
                match (pin.port(), pin.bit()) {
                    (Port::A, 1) => Some(0u8),
                    (Port::A, 2) => Some(1u8),
                    (Port::A, 3) => Some(2u8),
                    (Port::A, 4) => Some(3u8),
                    (Port::A, 5) => Some(4u8),
                    (Port::B, 11) => Some(5u8),
                    (Port::B, 12) => Some(6u8),
                    (Port::B, 13) => Some(7u8),
                    (Port::B, 14) => Some(8u8),
                    (Port::B, 15) => Some(9u8),
                    (Port::C, 6) => Some(10u8),
                    (Port::C, 7) => Some(11u8),
                    (Port::C, 8) => Some(12u8),
                    (Port::C, 9) => Some(13u8),
                    (Port::C, 10) => Some(14u8),
                    (Port::C, 11) => Some(15u8),
                    (Port::D, 9) => Some(16u8),
                    (Port::D, 10) => Some(17u8),
                    (Port::D, 11) => Some(18u8),
                    (Port::D, 12) => Some(19u8),
                    (Port::D, 13) => Some(20u8),
                    (Port::D, 14) => Some(21u8),
                    (Port::D, 15) => Some(22u8),
                    (Port::F, 4) => Some(27u8),
                    (Port::F, 5) => Some(28u8),
                    (Port::F, 6) => Some(29u8),
                    (Port::F, 7) => Some(30u8),
                    (Port::A, 0) => Some(31u8),
                    _ => None,
                }
            },
            UsartId::Usart1 => {
                match (pin.port(), pin.bit()) {
                    (Port::A, 1) => Some(0u8),
                    (Port::A, 2) => Some(1u8),
                    (Port::A, 3) => Some(2u8),
                    (Port::A, 4) => Some(3u8),
                    (Port::A, 5) => Some(4u8),
                    (Port::B, 11) => Some(5u8),
                    (Port::B, 12) => Some(6u8),
                    (Port::B, 13) => Some(7u8),
                    (Port::B, 14) => Some(8u8),
                    (Port::B, 15) => Some(9u8),
                    (Port::C, 6) => Some(10u8),
                    (Port::C, 7) => Some(11u8),
                    (Port::C, 8) => Some(12u8),
                    (Port::C, 9) => Some(13u8),
                    (Port::C, 10) => Some(14u8),
                    (Port::C, 11) => Some(15u8),
                    (Port::D, 9) => Some(16u8),
                    (Port::D, 10) => Some(17u8),
                    (Port::D, 11) => Some(18u8),
                    (Port::D, 12) => Some(19u8),
                    (Port::D, 13) => Some(20u8),
                    (Port::D, 14) => Some(21u8),
                    (Port::D, 15) => Some(22u8),
                    (Port::F, 4) => Some(27u8),
                    (Port::F, 5) => Some(28u8),
                    (Port::F, 6) => Some(29u8),
                    (Port::F, 7) => Some(30u8),
                    (Port::A, 0) => Some(31u8),
                    _ => None,
                }
            },
            UsartId::Usart2 => {
                match (pin.port(), pin.bit()) {
                    (Port::A, 6) => Some(0u8),
                    (Port::A, 7) => Some(1u8),
                    (Port::A, 8) => Some(2u8),
                    (Port::A, 9) => Some(3u8),
                    (Port::I, 0) => Some(4u8),
                    (Port::I, 1) => Some(5u8),
                    (Port::I, 2) => Some(6u8),
                    (Port::I, 3) => Some(7u8),
                    (Port::B, 6) => Some(8u8),
                    (Port::B, 7) => Some(9u8),
                    (Port::B, 8) => Some(10u8),
                    (Port::B, 9) => Some(11u8),
                    (Port::B, 10) => Some(12u8),
                    (Port::F, 4) => Some(16u8),
                    (Port::F, 5) => Some(17u8),
                    (Port::F, 6) => Some(18u8),
                    (Port::F, 7) => Some(19u8),
                    (Port::F, 8) => Some(20u8),
                    (Port::F, 9) => Some(21u8),
                    (Port::F, 10) => Some(22u8),
                    (Port::F, 11) => Some(23u8),
                    (Port::F, 12) => Some(24u8),
                    (Port::F, 13) => Some(25u8),
                    (Port::F, 14) => Some(26u8),
                    (Port::F, 15) => Some(27u8),
                    (Port::K, 0) => Some(28u8),
                    (Port::K, 1) => Some(29u8),
                    (Port::K, 2) => Some(30u8),
                    (Port::A, 5) => Some(31u8),
                    _ => None,
                }
            },
            UsartId::Usart3 => {
                match (pin.port(), pin.bit()) {
                    (Port::D, 9) => Some(0u8),
                    (Port::D, 10) => Some(1u8),
                    (Port::D, 11) => Some(2u8),
                    (Port::D, 12) => Some(3u8),
                    (Port::D, 13) => Some(4u8),
                    (Port::D, 14) => Some(5u8),
                    (Port::D, 15) => Some(6u8),
                    (Port::I, 2) => Some(7u8),
                    (Port::I, 3) => Some(8u8),
                    (Port::B, 6) => Some(9u8),
                    (Port::B, 7) => Some(10u8),
                    (Port::B, 8) => Some(11u8),
                    (Port::B, 9) => Some(12u8),
                    (Port::B, 10) => Some(13u8),
                    (Port::B, 11) => Some(14u8),
                    (Port::J, 14) => Some(15u8),
                    (Port::J, 15) => Some(16u8),
                    (Port::C, 0) => Some(17u8),
                    (Port::C, 1) => Some(18u8),
                    (Port::C, 2) => Some(19u8),
                    (Port::C, 3) => Some(20u8),
                    (Port::C, 4) => Some(21u8),
                    (Port::C, 5) => Some(22u8),
                    (Port::F, 11) => Some(23u8),
                    (Port::F, 12) => Some(24u8),
                    (Port::F, 13) => Some(25u8),
                    (Port::F, 14) => Some(26u8),
                    (Port::F, 15) => Some(27u8),
                    (Port::K, 0) => Some(28u8),
                    (Port::K, 1) => Some(29u8),
                    (Port::K, 2) => Some(30u8),
                    (Port::D, 8) => Some(31u8),
                    _ => None,
                }
            },
        }
    }
}

/// Location code of `pin` for the I2C SCL signal role, as the datasheet gives it.
pub open spec fn spec_i2c_scl_location(u: I2cId, pin: PinId) -> Option<u8> {
    match u {
        I2cId::I2c0 => spec_i2c_scl_location_i2c0(pin),
        I2cId::I2c1 => spec_i2c_scl_location_i2c1(pin),
    }
}

/// The SCL location rows of I2C0, verbatim from the datasheet.
pub open spec fn spec_i2c_scl_location_i2c0(pin: PinId) -> Option<u8> {
    match (pin.port_spec(), pin.bit_spec()) {
        (Port::A, 1) => Some(0u8),
        (Port::A, 2) => Some(1u8),
        (Port::A, 3) => Some(2u8),
        (Port::A, 4) => Some(3u8),
        (Port::A, 5) => Some(4u8),
        (Port::B, 11) => Some(5u8),
        (Port::B, 12) => Some(6u8),
        (Port::B, 13) => Some(7u8),
        (Port::B, 14) => Some(8u8),
        (Port::B, 15) => Some(9u8),
        (Port::C, 6) => Some(10u8),
        (Port::C, 7) => Some(11u8),
        (Port::C, 8) => Some(12u8),
        (Port::C, 9) => Some(13u8),
        (Port::C, 10) => Some(14u8),
        (Port::C, 11) => Some(15u8),
        (Port::D, 9) => Some(16u8),
        (Port::D, 10) => Some(17u8),
        (Port::D, 11) => Some(18u8),
        (Port::D, 12) => Some(19u8),
        (Port::D, 13) => Some(20u8),
        (Port::D, 14) => Some(21u8),
        (Port::D, 15) => Some(22u8),
        (Port::F, 4) => Some(27u8),
        (Port::F, 5) => Some(28u8),
        (Port::F, 6) => Some(29u8),
        (Port::F, 7) => Some(30u8),
        (Port::A, 0) => Some(31u8),
        _ => None,
    }
}

/// The SCL location rows of I2C1, verbatim from the datasheet.
pub open spec fn spec_i2c_scl_location_i2c1(pin: PinId) -> Option<u8> {
    match (pin.port_spec(), pin.bit_spec()) {
        (Port::A, 7) => Some(0u8),
        (Port::A, 8) => Some(1u8),
        (Port::A, 9) => Some(2u8),
        (Port::I, 2) => Some(3u8),
        (Port::I, 3) => Some(4u8),
        (Port::B, 6) => Some(5u8),
        (Port::B, 7) => Some(6u8),
        (Port::B, 8) => Some(7u8),
        (Port::B, 9) => Some(8u8),
        (Port::B, 10) => Some(9u8),
        (Port::J, 14) => Some(10u8),
        (Port::J, 15) => Some(11u8),
        (Port::C, 0) => Some(12u8),
        (Port::C, 1) => Some(13u8),
        (Port::C, 2) => Some(14u8),
        (Port::C, 3) => Some(15u8),
        (Port::C, 4) => Some(16u8),
        (Port::C, 5) => Some(17u8),
        (Port::C, 10) => Some(18u8),
        (Port::C, 11) => Some(19u8),
        (Port::F, 8) => Some(20u8),
        (Port::F, 9) => Some(21u8),
        (Port::F, 10) => Some(22u8),
        (Port::F, 11) => Some(23u8),
        (Port::F, 12) => Some(24u8),
        (Port::F, 13) => Some(25u8),
        (Port::F, 14) => Some(26u8),
        (Port::F, 15) => Some(27u8),
        (Port::K, 0) => Some(28u8),
        (Port::K, 1) => Some(29u8),
        (Port::K, 2) => Some(30u8),
        (Port::A, 6) => Some(31u8),
        _ => None,
    }
}

/// Marks the I2C SCL signal role.
pub struct SclPin;

impl SclPin {
    /// Looks `pin` up in the I2C SCL signal role table of `u`: the routing code where
    /// the pin may serve the role, `None` where it may not.
    pub fn location(u: I2cId, pin: PinId) -> (r: Option<u8>)
        ensures
            r == spec_i2c_scl_location(u, pin),
    {
        match u {
            I2cId::I2c0 => {
                match (pin.port(), pin.bit()) {
                    (Port::A, 1) => Some(0u8),
                    (Port::A, 2) => Some(1u8),
                    (Port::A, 3) => Some(2u8),
                    (Port::A, 4) => Some(3u8),
                    (Port::A, 5) => Some(4u8),
                    (Port::B, 11) => Some(5u8),
                    (Port::B, 12) => Some(6u8),
                    (Port::B, 13) => Some(7u8),
                    (Port::B, 14) => Some(8u8),
                    (Port::B, 15) => Some(9u8),
                    (Port::C, 6) => Some(10u8),
                    (Port::C, 7) => Some(11u8),
                    (Port::C, 8) => Some(12u8),
                    (Port::C, 9) => Some(13u8),
                    (Port::C, 10) => Some(14u8),
                    (Port::C, 11) => Some(15u8),
                    (Port::D, 9) => Some(16u8),
                    (Port::D, 10) => Some(17u8),
                    (Port::D, 11) => Some(18u8),
                    (Port::D, 12) => Some(19u8),
                    (Port::D, 13) => Some(20u8),
                    (Port::D, 14) => Some(21u8),
                    (Port::D, 15) => Some(22u8),
                    (Port::F, 4) => Some(27u8),
                    (Port::F, 5) => Some(28u8),
                    (Port::F, 6) => Some(29u8),
                    (Port::F, 7) => Some(30u8),
                    (Port::A, 0) => Some(31u8),
                    _ => None,
                }
            },
            I2cId::I2c1 => {
                match (pin.port(), pin.bit()) {
                    (Port::A, 7) => Some(0u8),
                    (Port::A, 8) => Some(1u8),
                    (Port::A, 9) => Some(2u8),
                    (Port::I, 2) => Some(3u8),
                    (Port::I, 3) => Some(4u8),
                    (Port::B, 6) => Some(5u8),
                    (Port::B, 7) => Some(6u8),
                    (Port::B, 8) => Some(7u8),
                    (Port::B, 9) => Some(8u8),
                    (Port::B, 10) => Some(9u8),
                    (Port::J, 14) => Some(10u8),
                    (Port::J, 15) => Some(11u8),
                    (Port::C, 0) => Some(12u8),
                    (Port::C, 1) => Some(13u8),
                    (Port::C, 2) => Some(14u8),
                    (Port::C, 3) => Some(15u8),
                    (Port::C, 4) => Some(16u8),
                    (Port::C, 5) => Some(17u8),
                    (Port::C, 10) => Some(18u8),
                    (Port::C, 11) => Some(19u8),
                    (Port::F, 8) => Some(20u8),
                    (Port::F, 9) => Some(21u8),
                    (Port::F, 10) => Some(22u8),
                    (Port::F, 11) => Some(23u8),
                    (Port::F, 12) => Some(24u8),
                    (Port::F, 13) => Some(25u8),
                    (Port::F, 14) => Some(26u8),
                    (Port::F, 15) => Some(27u8),
                    (Port::K, 0) => Some(28u8),
                    (Port::K, 1) => Some(29u8),
                    (Port::K, 2) => Some(30u8),
                    (Port::A, 6) => Some(31u8),
                    _ => None,
                }
            },
        }
    }
}

/// Location code of `pin` for the I2C SDA signal role, as the datasheet gives it.
pub open spec fn spec_i2c_sda_location(u: I2cId, pin: PinId) -> Option<u8> {
    match u {
        I2cId::I2c0 => spec_i2c_sda_location_i2c0(pin),
        I2cId::I2c1 => spec_i2c_sda_location_i2c1(pin),
    }
}

/// The SDA location rows of I2C0, verbatim from the datasheet.
pub open spec fn spec_i2c_sda_location_i2c0(pin: PinId) -> Option<u8> {
    match (pin.port_spec(), pin.bit_spec()) {
        (Port::A, 0) => Some(0u8),
        (Port::A, 1) => Some(1u8),
        (Port::A, 2) => Some(2u8),
        (Port::A, 3) => Some(3u8),
        (Port::A, 4) => Some(4u8),
        (Port::A, 5) => Some(5u8),
        (Port::B, 11) => Some(6u8),
        (Port::B, 12) => Some(7u8),
        (Port::B, 13) => Some(8u8),
        (Port::B, 14) => Some(9u8),
        (Port::B, 15) => Some(10u8),
        (Port::C, 6) => Some(11u8),
        (Port::C, 7) => Some(12u8),
        (Port::C, 8) => Some(13u8),
        (Port::C, 9) => Some(14u8),
        (Port::C, 10) => Some(15u8),
        (Port::C, 11) => Some(16u8),
        (Port::D, 9) => Some(17u8),
        (Port::D, 10) => Some(18u8),
        (Port::D, 11) => Some(19u8),
        (Port::D, 12) => Some(20u8),
        (Port::D, 13) => Some(21u8),
        (Port::D, 14) => Some(22u8),
        (Port::D, 15) => Some(23u8),
        (Port::F, 4) => Some(28u8),
        (Port::F, 5) => Some(29u8),
        (Port::F, 6) => Some(30u8),
        (Port::F, 7) => Some(31u8),
        _ => None,
    }
}

/// The SDA location rows of I2C1, verbatim from the datasheet.
pub open spec fn spec_i2c_sda_location_i2c1(pin: PinId) -> Option<u8> {
    match (pin.port_spec(), pin.bit_spec()) {
        (Port::A, 6) => Some(0u8),
        (Port::A, 7) => Some(1u8),
        (Port::A, 8) => Some(2u8),
        (Port::A, 9) => Some(3u8),
        (Port::I, 2) => Some(4u8),
        (Port::I, 3) => Some(5u8),
        (Port::B, 6) => Some(6u8),
        (Port::B, 7) => Some(7u8),
        (Port::B, 8) => Some(8u8),
        (Port::B, 9) => Some(9u8),
        (Port::B, 10) => Some(10u8),
        (Port::J, 14) => Some(11u8),
        (Port::J, 15) => Some(12u8),
        (Port::C, 0) => Some(13u8),
        (Port::C, 1) => Some(14u8),
        (Port::C, 2) => Some(15u8),
        (Port::C, 3) => Some(16u8),
        (Port::C, 4) => Some(17u8),
        (Port::C, 5) => Some(18u8),
        (Port::C, 10) => Some(19u8),
        (Port::C, 11) => Some(20u8),
        (Port::F, 8) => Some(21u8),
        (Port::F, 9) => Some(22u8),
        (Port::F, 10) => Some(23u8),
        (Port::F, 11) => Some(24u8),
        (Port::F, 12) => Some(25u8),
        (Port::F, 13) => Some(26u8),
        (Port::F, 14) => Some(27u8),
        (Port::F, 15) => Some(28u8),
        (Port::K, 0) => Some(29u8),
        (Port::K, 1) => Some(30u8),
        (Port::K, 2) => Some(31u8),
        _ => None,
    }
}

/// Marks the I2C SDA signal role.
pub struct SdaPin;

impl SdaPin {
    /// Looks `pin` up in the I2C SDA signal role table of `u`: the routing code where
    /// the pin may serve the role, `None` where it may not.
    pub fn location(u: I2cId, pin: PinId) -> (r: Option<u8>)
        ensures
            r == spec_i2c_sda_location(u, pin),
    {
        match u {
            I2cId::I2c0 => {
                match (pin.port(), pin.bit()) {
                    (Port::A, 0) => Some(0u8),
                    (Port::A, 1) => Some(1u8),
                    (Port::A, 2) => Some(2u8),
                    (Port::A, 3) => Some(3u8),
                    (Port::A, 4) => Some(4u8),
                    (Port::A, 5) => Some(5u8),
                    (Port::B, 11) => Some(6u8),
                    (Port::B, 12) => Some(7u8),
                    (Port::B, 13) => Some(8u8),
                    (Port::B, 14) => Some(9u8),
                    (Port::B, 15) => Some(10u8),
                    (Port::C, 6) => Some(11u8),
                    (Port::C, 7) => Some(12u8),
                    (Port::C, 8) => Some(13u8),
                    (Port::C, 9) => Some(14u8),
                    (Port::C, 10) => Some(15u8),
                    (Port::C, 11) => Some(16u8),
                    (Port::D, 9) => Some(17u8),
                    (Port::D, 10) => Some(18u8),
                    (Port::D, 11) => Some(19u8),
                    (Port::D, 12) => Some(20u8),
                    (Port::D, 13) => Some(21u8),
                    (Port::D, 14) => Some(22u8),
                    (Port::D, 15) => Some(23u8),
                    (Port::F, 4) => Some(28u8),
                    (Port::F, 5) => Some(29u8),
                    (Port::F, 6) => Some(30u8),
                    (Port::F, 7) => Some(31u8),
                    _ => None,
                }
            },
            I2cId::I2c1 => {
                match (pin.port(), pin.bit()) {
                    (Port::A, 6) => Some(0u8),
                    (Port::A, 7) => Some(1u8),
                    (Port::A, 8) => Some(2u8),
                    (Port::A, 9) => Some(3u8),
                    (Port::I, 2) => Some(4u8),
                    (Port::I, 3) => Some(5u8),
                    (Port::B, 6) => Some(6u8),
                    (Port::B, 7) => Some(7u8),
                    (Port::B, 8) => Some(8u8),
                    (Port::B, 9) => Some(9u8),
                    (Port::B, 10) => Some(10u8),
                    (Port::J, 14) => Some(11u8),
                    (Port::J, 15) => Some(12u8),
                    (Port::C, 0) => Some(13u8),
                    (Port::C, 1) => Some(14u8),
                    (Port::C, 2) => Some(15u8),
                    (Port::C, 3) => Some(16u8),
                    (Port::C, 4) => Some(17u8),
                    (Port::C, 5) => Some(18u8),
                    (Port::C, 10) => Some(19u8),
                    (Port::C, 11) => Some(20u8),
                    (Port::F, 8) => Some(21u8),
                    (Port::F, 9) => Some(22u8),
                    (Port::F, 10) => Some(23u8),
                    (Port::F, 11) => Some(24u8),
                    (Port::F, 12) => Some(25u8),
                    (Port::F, 13) => Some(26u8),
                    (Port::F, 14) => Some(27u8),
                    (Port::F, 15) => Some(28u8),
                    (Port::K, 0) => Some(29u8),
                    (Port::K, 1) => Some(30u8),
                    (Port::K, 2) => Some(31u8),
                    _ => None,
                }
            },
        }
    }
}

/// Every code in every location table is a 5-bit routing value, as the
/// peripheral routing registers expect.
pub proof fn lemma_location_codes_are_5_bit(u: UsartId, i: I2cId, p: PinId)
    ensures
        spec_usart_tx_location(u, p) matches Some(l) ==> l < 32,
        spec_usart_rx_location(u, p) matches Some(l) ==> l < 32,
        spec_i2c_scl_location(i, p) matches Some(l) ==> l < 32,
        spec_i2c_sda_location(i, p) matches Some(l) ==> l < 32,
{
}

/// The debug pins, port F bits 0-3, have no entry in any location
/// table: no peripheral signal can ever be routed to them.
pub proof fn lemma_debug_pins_unroutable(u: UsartId, i: I2cId, p: PinId)
    requires
        p.port_spec() == Port::F,
        p.bit_spec() < 4,
    ensures
        spec_usart_tx_location(u, p) is None,
        spec_usart_rx_location(u, p) is None,
        spec_i2c_scl_location(i, p) is None,
        spec_i2c_sda_location(i, p) is None,
{
}

} // verus!
