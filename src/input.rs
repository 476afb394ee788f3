use vstd::prelude::*;

verus! {

/// The keys the game listens to; everything else is `Other`.
#[derive(Clone, Copy, Debug, PartialEq, Eq, Structural)]
pub enum Key {
    Up,
    Down,
    Left,
    Right,
    Z,
    Other,
}

/// What the player asks for this tick: a movement direction on each axis
/// (-1, 0 or 1, y up) and whether to fire.
#[derive(Clone, Copy, Debug, PartialEq, Eq, Structural)]
pub struct InputState {
    xaxis: i8,
    yaxis: i8,
    fire: bool,
}

impl InputState {
    #[verifier::type_invariant]
    spec fn axes_in_range(&self) -> bool {
        &&& -1 <= self.xaxis <= 1
        &&& -1 <= self.yaxis <= 1
    }

    pub closed spec fn spec_xaxis(&self) -> i8 {
        self.xaxis
    }

    pub closed spec fn spec_yaxis(&self) -> i8 {
        self.yaxis
    }

    pub closed spec fn spec_fire(&self) -> bool {
        self.fire
    }

    pub fn get_xaxis(&self) -> (r: i8)
        ensures
            r == self.spec_xaxis(),
            -1 <= r <= 1,
    {
        proof {
            use_type_invariant(self);
        }
        self.xaxis
    }

    pub fn get_yaxis(&self) -> (r: i8)
        ensures
            r == self.spec_yaxis(),
            -1 <= r <= 1,
    {
        proof {
            use_type_invariant(self);
        }
        self.yaxis
    }

    pub fn get_fire(&self) -> (r: bool)
        ensures
            r == self.spec_fire(),
    {
        self.fire
    }

    /// A key pressed: an arrow sets its axis to its direction.
    pub fn move_actor(&mut self, key: Key)
        ensures
            final(self).spec_fire() == old(self).spec_fire(),
            final(self).spec_xaxis() == match key {
                Key::Left => -1i8,
                Key::Right => 1i8,
                _ => old(self).spec_xaxis(),
            },
            final(self).spec_yaxis() == match key {
                Key::Up => 1i8,
                Key::Down => -1i8,
                _ => old(self).spec_yaxis(),
            },
    {
        proof {
            use_type_invariant(&*self);
        }
        match key {
            Key::Up => self.yaxis = 1,
            Key::Down => self.yaxis = -1,
            Key::Left => self.xaxis = -1,
            Key::Right => self.xaxis = 1,
            _ => {},
        }
    }

    /// A key released: an arrow stops movement on its axis.
    pub fn stop_actor(&mut self, key: Key)
        ensures
            final(self).spec_fire() == old(self).spec_fire(),
            final(self).spec_xaxis() == match key {
                Key::Left | Key::Right => 0i8,
                _ => old(self).spec_xaxis(),
            },
            final(self).spec_yaxis() == match key {
                Key::Up | Key::Down => 0i8,
                _ => old(self).spec_yaxis(),
            },
    {
        proof {
            use_type_invariant(&*self);
        }
        match key {
            Key::Up | Key::Down => self.yaxis = 0,
            Key::Left | Key::Right => self.xaxis = 0,
            _ => {},
        }
    }

    /// A key pressed: `Z` starts firing.
    pub fn fire_shot(&mut self, key: Key)
        ensures
            final(self).spec_xaxis() == old(self).spec_xaxis(),
            final(self).spec_yaxis() == old(self).spec_yaxis(),
            final(self).spec_fire() == (key == Key::Z || old(self).spec_fire()),
    {
        proof {
            use_type_invariant(&*self);
        }
        if key == Key::Z {
            self.fire = true;
        }
    }

    /// A key released: `Z` stops firing.
    pub fn stop_shot(&mut self, key: Key)
        ensures
            final(self).spec_xaxis() == old(self).spec_xaxis(),
            final(self).spec_yaxis() == old(self).spec_yaxis(),
            final(self).spec_fire() == (key != Key::Z && old(self).spec_fire()),
    {
        proof {
            use_type_invariant(&*self);
        }
        if key == Key::Z {
            self.fire = false;
        }
    }
}

impl Default for InputState {
    /// No movement, no firing.
    fn default() -> (r: InputState)
        ensures
            r.spec_xaxis() == 0,
            r.spec_yaxis() == 0,
            !r.spec_fire(),
    {
        InputState { xaxis: 0, yaxis: 0, fire: false }
    }
}

} // verus!
