//! Tests of the interrupt vector table wiring: each driver's vector
//! lands on its handler and on no other.

use gps_freak::cpu::{
    Handler, IRQ_EXTI0, IRQ_GPDMA1_CH0, IRQ_I2C1, IRQ_TIM3, IRQ_TIM6, IRQ_USART2, IRQ_USART3,
    IRQ_USB_FS, VectorTable,
};

fn wired() -> VectorTable {
    let mut vtor = VectorTable::new();
    vtor.debug();
    vtor.gps_uart();
    vtor.i2c();
    vtor.led();
    vtor.lmk05318b();
    vtor.usb();
    vtor.command_usb();
    vtor
}

#[test]
fn command_usb_check_isr() {
    assert!(wired().pendsv == Handler::CommandDispatch);
}

#[test]
fn usb_check_isr() {
    assert!(wired().isr[IRQ_USB_FS] == Handler::UsbIsr);
}

#[test]
fn led_check_isr() {
    assert!(wired().isr[IRQ_TIM3] == Handler::LedIsr);
}

#[test]
fn debug_check_isr() {
    assert!(wired().isr[IRQ_USART3] == Handler::DebugIsr);
}

#[test]
fn uart_debug_check_isr() {
    assert!(wired().isr[IRQ_USART3] == Handler::DebugIsr);
}

#[test]
fn i2c_check_isr() {
    let v = wired();
    assert!(v.isr[IRQ_I2C1] == Handler::I2cIsr);
    assert!(v.isr[IRQ_USART2] == Handler::GpsUartIsr);
    assert!(v.isr[IRQ_GPDMA1_CH0] == Handler::GpsUartIsr);
    assert!(v.isr[0] == Handler::Fault);
}

#[test]
fn lmk05318b_check_isr() {
    let v = wired();
    assert!(v.isr[IRQ_EXTI0] == Handler::ClockStatusIsr);
    assert!(v.isr[IRQ_TIM6] == Handler::ClockStatusIsr);
}
