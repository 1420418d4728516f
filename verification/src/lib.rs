//! Building blocks of the Apple Notification Center Service (ANCS), a
//! Bluetooth Low-Energy protocol that lets a client read notifications from
//! a host device.

pub mod attributes;
