use vstd::prelude::*;

verus! {

/// Run configuration: the ordered list of target identifiers, one comic
/// per entry. Duplicates are kept; each entry is processed independently.
#[derive(Debug)]
pub struct Config {
    pub targets: Vec<String>,
}

impl View for Config {
    type V = Seq<Seq<char>>;

    open spec fn view(&self) -> Seq<Seq<char>> {
        self.targets.deep_view()
    }
}

impl Clone for Config {
    fn clone(&self) -> (r: Self)
        ensures
            r@ == self@,
    {
        let mut targets: Vec<String> = Vec::new();
        let n = self.targets.len();
        let mut i: usize = 0;
        while i < n
            invariant
                i <= n,
                n == self.targets@.len(),
                targets@.len() == i,
                forall|j: int| 0 <= j < i ==> (#[trigger] targets@[j])@ == self.targets@[j]@,
            decreases n - i,
        {
            targets.push(self.targets[i].clone());
            i += 1;
        }
        let r = Config { targets };
        proof {
            assert forall|j: int| 0 <= j < n implies r@[j] == self@[j] by {
                assert(r@[j] == r.targets@[j]@);
                assert(self@[j] == self.targets@[j]@);
            }
            assert(r@ =~= self@);
        }
        r
    }
}

} // verus!
