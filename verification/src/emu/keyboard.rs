//! The keyboard bridge: the key that is down right now, fed from a queue that
//! an input driver on another thread writes key codes to.

use crate::emu::channel::{clone_sender, receive, try_receive};
use std::sync::mpsc::{Receiver, Sender};
use vstd::prelude::*;

verus! {

/// Stands in the key slot while no key is down. Key codes are `0x0..=0xF`.
pub const NO_KEY: u8 = 0x10;

/// The key slot and both ends of the queue that feeds it.
pub struct Keyboard {
    pressed_key: u8,
    keyboard_sender: Sender<u8>,
    keyboard_receiver: Receiver<u8>,
}

/// The key slot after a poll that found `event` waiting in the queue.
pub open spec fn polled(event: Option<u8>) -> u8 {
    match event {
        Some(key) => key,
        None => NO_KEY,
    }
}

impl View for Keyboard {
    type V = u8;

    /// The key slot: a key code, or `NO_KEY`.
    closed spec fn view(&self) -> u8 {
        self.pressed_key
    }
}

impl Keyboard {
    /// The sending half of the queue that feeds this keyboard.
    pub closed spec fn driver(&self) -> Sender<u8> {
        self.keyboard_sender
    }

    /// A keyboard with no key down and an empty queue.
    pub fn new() -> (k: Self)
        ensures
            k@ == NO_KEY,
    {
        let (tx, rx) = std::sync::mpsc::channel::<u8>();
        Keyboard { pressed_key: NO_KEY, keyboard_sender: tx, keyboard_receiver: rx }
    }

    /// The key slot.
    pub fn pressed_key(&self) -> (key: u8)
        ensures
            key == self@,
    {
        self.pressed_key
    }

    /// Puts the outcome of a poll into the key slot: the key that was waiting,
    /// or `NO_KEY` if none was.
    pub fn record(&mut self, event: Option<u8>)
        ensures
            final(self)@ == polled(event),
            final(self).driver() == old(self).driver(),
    {
        self.pressed_key = match event {
            Some(key) => key,
            None => NO_KEY,
        };
    }

    /// Polls the queue without blocking and takes at most one key code from
    /// it. The key slot becomes that code, or `NO_KEY` when the queue was
    /// empty. Fails, leaving the slot as it was, when the queue is torn down.
    pub fn recieve_key(&mut self) -> (r: Result<(), ()>)
        ensures
            r is Err ==> final(self)@ == old(self)@,
            final(self).driver() == old(self).driver(),
    {
        match try_receive(&self.keyboard_receiver) {
            Ok(event) => {
                self.record(event);
                Ok(())
            },
            Err(_) => Err(()),
        }
    }

    /// Whether `key` is the key that is down.
    pub fn is_key_pressed(&self, key: u8) -> (pressed: bool)
        ensures
            pressed == (self@ == key),
    {
        self.pressed_key == key
    }

    /// Returns the key that is down. If none is, blocks until the driver
    /// sends one, records it and returns it. Fails, leaving the slot as it
    /// was, when the queue is torn down.
    ///
    /// The driver must run on another thread, or this call never returns.
    pub fn wait_for_key(&mut self) -> (r: Result<u8, ()>)
        ensures
            old(self)@ != NO_KEY ==> r == Ok::<u8, ()>(old(self)@),
            r matches Ok(key) ==> final(self)@ == key,
            r is Err ==> final(self)@ == old(self)@,
            final(self).driver() == old(self).driver(),
    {
        if self.pressed_key != NO_KEY {
            return Ok(self.pressed_key);
        }
        match receive(&self.keyboard_receiver) {
            Ok(key) => {
                self.record(Some(key));
                Ok(key)
            },
            Err(_) => Err(()),
        }
    }

    /// A new end for a driver to send key codes to: one more sending half
    /// of the queue that feeds this keyboard.
    pub fn new_driver(&mut self) -> (tx: Sender<u8>)
        ensures
            tx == old(self).driver(),
            final(self)@ == old(self)@,
            final(self).driver() == old(self).driver(),
    {
        clone_sender(&self.keyboard_sender)
    }
}

} // verus!
