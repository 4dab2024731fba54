use vstd::prelude::*;

verus! {

/// Scripts evaluated before the page's first navigation is committed: they are
/// held back and run, in order, when it is; after that, scripts run at once.
pub struct PendingScripts {
    scripts: Option<Vec<String>>,
}

impl PendingScripts {
    /// The scripts held back, oldest first, or `None` once the first navigation
    /// was committed.
    pub closed spec fn view(&self) -> Option<Seq<Seq<char>>> {
        match self.scripts {
            Some(s) => Some(s@.map_values(|x: String| x@)),
            None => None,
        }
    }

    /// Nothing held back yet, and no navigation committed.
    pub fn new() -> (p: Self)
        ensures
            p.view() == Some(Seq::<Seq<char>>::empty()),
    {
        let p = PendingScripts { scripts: Some(Vec::new()) };
        assert(p.view().unwrap() =~= Seq::<Seq<char>>::empty());
        p
    }

    /// A script is evaluated: before the first commit it is held back (and
    /// `None` comes back); after it, the script comes back to be run now.
    pub fn eval(&mut self, js: String) -> (run_now: Option<String>)
        ensures
            old(self).view() matches Some(held) ==> run_now is None && final(self).view() == Some(held.push(js@)),
            old(self).view() is None ==> (run_now matches Some(s) && s@ == js@) && final(self).view() is None,
    {
        match &mut self.scripts {
            Some(scripts) => {
                let ghost before = scripts@;
                scripts.push(js);
                assert(scripts@.map_values(|x: String| x@) =~= before.map_values(|x: String| x@).push(js@));
                None
            },
            None => Some(js),
        }
    }

    /// A navigation was committed: the scripts held back come back, oldest
    /// first, to be run now, and from then on nothing is held back.
    pub fn commit(&mut self) -> (run_now: Vec<String>)
        ensures
            final(self).view() is None,
            old(self).view() matches Some(held) ==> run_now@.map_values(|x: String| x@) == held,
            old(self).view() is None ==> run_now@.len() == 0,
    {
        let mut taken: Option<Vec<String>> = None;
        std::mem::swap(&mut taken, &mut self.scripts);
        match taken {
            Some(scripts) => scripts,
            None => Vec::new(),
        }
    }
}

} // verus!
