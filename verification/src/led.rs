use vstd::prelude::*;

verus! {

/// Model of the LED actuator: a single binary output line. The only state the
/// design ever relies on is the last commanded level, so that is all the type
/// holds; the firmware shell forwards each command to the physical pin.
pub struct Led {
    lit: bool,
}

impl Led {
    /// The level the line was last commanded to (true = lit).
    pub closed spec fn lit(&self) -> bool {
        self.lit
    }

    /// A fresh actuator; the line starts driven low (LED off).
    pub fn new() -> (led: Led)
        ensures
            !led.lit(),
    {
        Led { lit: false }
    }

    /// The level the line was last commanded to.
    pub fn is_lit(&self) -> (r: bool)
        ensures
            r == self.lit(),
    {
        self.lit
    }

    /// Command the line high.
    pub fn on(&mut self)
        ensures
            final(self).lit(),
    {
        self.lit = true;
    }

    /// Command the line low.
    pub fn off(&mut self)
        ensures
            !final(self).lit(),
    {
        self.lit = false;
    }
}

} // verus!
