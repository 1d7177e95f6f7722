use vstd::prelude::*;

verus! {

/// Whether `keys` holds `code`.
pub open spec fn has_key(keys: Seq<String>, code: Seq<char>) -> bool {
    exists|i: int| 0 <= i < keys.len() && (#[trigger] keys[i])@ == code
}

/// The keys held down, by their code (`"ArrowRight"`, `"Space"`, ...).
#[derive(Debug)]
pub struct KeyState {
    pressed_keys: Vec<String>,
}

impl KeyState {
    pub closed spec fn keys(self) -> Seq<String> {
        self.pressed_keys@
    }

    /// Whether `code` is held down.
    pub open spec fn holds(self, code: Seq<char>) -> bool {
        has_key(self.keys(), code)
    }

    pub fn new() -> (r: KeyState)
        ensures
            forall|code: Seq<char>| !r.holds(code),
    {
        KeyState { pressed_keys: Vec::new() }
    }

    pub fn is_pressed(&self, code: &str) -> (r: bool)
        ensures
            r == self.holds(code@),
    {
        let mut i: usize = 0;
        while i < self.pressed_keys.len()
            invariant
                0 <= i <= self.pressed_keys@.len(),
                forall|j: int| 0 <= j < i ==> (#[trigger] self.pressed_keys@[j])@ != code@,
            decreases self.pressed_keys@.len() - i,
        {
            let key = String::from_str(code);
            if self.pressed_keys[i] == key {
                return true;
            }
            i = i + 1;
        }
        false
    }

    /// Marks `code` as held down.
    pub fn set_pressed(&mut self, code: &str)
        ensures
            final(self).holds(code@),
            forall|other: Seq<char>| other != code@ ==> (final(self).holds(other) == old(self).holds(other)),
    {
        if !self.is_pressed(code) {
            let key = String::from_str(code);
            let ghost before = self.pressed_keys@;
            self.pressed_keys.push(key);
            proof {
                assert(self.keys()[before.len() as int]@ == code@);
                assert forall|other: Seq<char>| other != code@ implies (self.holds(other) == old(self).holds(
                    other,
                )) by {
                    if self.holds(other) {
                        let i = choose|i: int| 0 <= i < self.keys().len() && (#[trigger] self.keys()[i])@ == other;
                        assert(before[i] == self.keys()[i]);
                    }
                    if old(self).holds(other) {
                        let i = choose|i: int| 0 <= i < old(self).keys().len() && (#[trigger] old(self).keys()[i])@ == other;
                        assert(self.keys()[i] == before[i]);
                    }
                }
            }
        }
    }

    /// Marks `code` as released.
    pub fn set_released(&mut self, code: &str)
        ensures
            !final(self).holds(code@),
            forall|other: Seq<char>| other != code@ ==> (final(self).holds(other) == old(self).holds(other)),
    {
        let mut kept: Vec<String> = Vec::new();
        let mut old_keys: Vec<String> = Vec::new();
        std::mem::swap(&mut old_keys, &mut self.pressed_keys);
        let ghost orig = old_keys@;
        let n = old_keys.len();
        let mut k: usize = 0;
        assert(orig.take(0) =~= Seq::<String>::empty());
        assert(old_keys@ =~= orig.subrange(0, n as int));
        while k < n
            invariant
                n == orig.len(),
                0 <= k <= n,
                old_keys@ == orig.subrange(k as int, n as int),
                orig == old(self).keys(),
                forall|j: int| 0 <= j < kept@.len() ==> (#[trigger] kept@[j])@ != code@,
                forall|other: Seq<char>|
                    other != code@ ==> (#[trigger] has_key(kept@, other) == has_key(orig.take(k as int), other)),
            decreases n - k,
        {
            let key = old_keys.remove(0);
            assert(key == orig[k as int]);
            let ghost before = kept@;
            let target = String::from_str(code);
            if !(key == target) {
                kept.push(key);
            }
            proof {
                let pre = orig.take(k as int);
                let post = orig.take(k + 1);
                assert forall|other: Seq<char>| other != code@ implies (#[trigger] has_key(kept@, other)
                    == has_key(post, other)) by {
                    if has_key(post, other) {
                        let j = choose|j: int| 0 <= j < post.len() && (#[trigger] post[j])@ == other;
                        if j < k {
                            assert(pre[j] == post[j]);
                            assert(has_key(pre, other));
                            assert(has_key(before, other) == has_key(pre, other));
                            let m = choose|m: int| 0 <= m < before.len() && (#[trigger] before[m])@ == other;
                            assert(kept@[m] == before[m]);
                        } else {
                            assert(kept@[before.len() as int] == orig[j]);
                        }
                    }
                    if has_key(kept@, other) {
                        let j = choose|j: int| 0 <= j < kept@.len() && (#[trigger] kept@[j])@ == other;
                        if j < before.len() {
                            assert(before[j] == kept@[j]);
                            assert(has_key(before, other));
                            assert(has_key(before, other) == has_key(pre, other));
                            let m = choose|m: int| 0 <= m < pre.len() && (#[trigger] pre[m])@ == other;
                            assert(post[m] == pre[m]);
                        } else {
                            assert(post[k as int] == orig[k as int]);
                        }
                    }
                }
                assert(old_keys@ =~= orig.subrange(k + 1, n as int));
            }
            k = k + 1;
        }
        assert(orig.take(n as int) == orig);
        self.pressed_keys = kept;
    }
}

} // verus!
