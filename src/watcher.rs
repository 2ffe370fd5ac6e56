use vstd::prelude::*;

verus! {

/// What a watcher exposes after one more reading: a failed reading changes nothing; a good
/// one becomes `current`, and the previous `current` (or the reading itself, the first time)
/// becomes `old`.
pub open spec fn watch_step<T>(pair: Option<(T, T)>, reading: Option<T>) -> Option<(T, T)> {
    match reading {
        None => pair,
        Some(v) => match pair {
            Some((_, c)) => Some((c, v)),
            None => Some((v, v)),
        },
    }
}

/// What a fresh watcher exposes after the given readings, in order.
pub open spec fn watch_all<T>(readings: Seq<Option<T>>) -> Option<(T, T)>
    decreases readings.len(),
{
    if readings.len() == 0 {
        None
    } else {
        watch_step(watch_all(readings.drop_last()), readings.last())
    }
}

/// Once a watcher has had a good reading it always exposes a pair, and a failed reading
/// leaves a pair as it was.
pub proof fn lemma_warm_watcher_keeps_pair<T>(pair: Option<(T, T)>, reading: Option<T>)
    requires
        pair is Some,
    ensures
        watch_step(pair, reading) is Some,
        reading is None ==> watch_step(pair, reading) == pair,
{
}

/// For every sequence of readings: after the first good one, the watcher exposes a pair.
pub proof fn lemma_pair_after_first_success<T>(readings: Seq<Option<T>>, i: int)
    requires
        0 <= i < readings.len(),
        readings[i] is Some,
    ensures
        watch_all(readings) is Some,
    decreases readings.len(),
{
    if i == readings.len() - 1 {
    } else {
        assert(readings.drop_last()[i] == readings[i]);
        lemma_pair_after_first_success(readings.drop_last(), i);
    }
}

/// Keeps the previous and the current accepted value of a polled quantity.
pub struct Watcher<T> {
    previous: Option<T>,
    current: Option<T>,
}

impl<T> View for Watcher<T> {
    type V = Option<(T, T)>;

    /// `(old, current)`, or `None` before the first good reading.
    closed spec fn view(&self) -> Option<(T, T)> {
        match self.current {
            None => None,
            Some(c) => match self.previous {
                Some(p) => Some((p, c)),
                None => Some((c, c)),
            },
        }
    }
}

impl<T> Watcher<T> {
    pub fn new() -> (r: Self)
        ensures
            r@ is None,
    {
        Watcher { previous: None, current: None }
    }

    /// Takes this tick's reading; `None` is a failed read.
    pub fn update(&mut self, reading: Option<T>)
        ensures
            final(self)@ == watch_step(old(self)@, reading),
    {
        match reading {
            None => {},
            Some(v) => {
                let prev = self.current.take();
                self.previous = prev;
                self.current = Some(v);
            },
        }
    }

    /// `(old, current)` once a reading has succeeded.
    pub fn pair(&self) -> (r: Option<(&T, &T)>)
        ensures
            match self@ {
                Some((o, c)) => r matches Some((ro, rc)) && *ro == o && *rc == c,
                None => r is None,
            },
    {
        match &self.current {
            None => None,
            Some(c) => match &self.previous {
                Some(p) => Some((p, c)),
                None => Some((c, c)),
            },
        }
    }
}

} // verus!
