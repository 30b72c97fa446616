pub mod bits;
pub mod ext_devices;
pub mod frame;
pub mod laws;
pub mod nvic;
pub mod peripheral;
pub mod rcc;
pub mod rtc;
pub mod system;
pub mod tim;
pub mod usart;
