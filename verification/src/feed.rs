//! Several keys at once, as a paste brings them.
use crate::app::{App, AppModel};
use crate::event::KeyEvent;
use crate::paste;
use crate::paste::paste_keys;
use crate::screen::Screen;
use vstd::prelude::*;

verus! {

impl AppModel {
    /// Whether the screen that is shown takes keys by itself: it is open and
    /// not kept elsewhere.
    pub open spec fn takes_keys(self) -> bool {
        &&& self.waiting() is None
        &&& match self.screen {
            Screen::SshUser | Screen::GoDaddy | Screen::Mysql | Screen::Postgresql | Screen::SslCert => false,
            _ => true,
        }
    }

    /// Keys handled one after the other, as far as the screens that they lead
    /// to take them, and the keys that are left.
    pub open spec fn fed(self, keys: Seq<KeyEvent>) -> (AppModel, Seq<KeyEvent>)
        decreases keys.len(),
    {
        if keys.len() == 0 || !self.takes_keys() {
            (self, keys)
        } else {
            self.on_key(keys[0], None).fed(keys.drop_first())
        }
    }
}

impl App {
    fn is_taking_keys(&self) -> (r: bool)
        ensures
            r == self@.takes_keys(),
    {
        self.wants().is_none() && match self.screen {
            Screen::SshUser | Screen::GoDaddy | Screen::Mysql | Screen::Postgresql | Screen::SslCert => false,
            _ => true,
        }
    }

    /// Handles keys one after the other, as far as the screens that they lead
    /// to take them; returns the keys that are left.
    pub fn feed(&mut self, keys: Vec<KeyEvent>) -> (rest: Vec<KeyEvent>)
        requires
            old(self)@.wf(),
        ensures
            (final(self)@, rest@) == old(self)@.fed(keys@),
            final(self)@.wf(),
    {
        let ghost start = self@;
        let mut i: usize = 0;
        assert(keys@.skip(0) =~= keys@);
        while i < keys.len() && self.is_taking_keys()
            invariant
                i <= keys@.len(),
                self@.wf(),
                start.fed(keys@) == self@.fed(keys@.skip(i as int)),
            decreases keys@.len() - i,
        {
            assert(keys@.skip(i as int).drop_first() =~= keys@.skip(i + 1));
            self.handle_key(keys[i], None);
            i = i + 1;
        }
        let mut rest: Vec<KeyEvent> = Vec::new();
        let ghost first = i as int;
        while i < keys.len()
            invariant
                0 <= first <= i <= keys@.len(),
                rest@ == keys@.subrange(first, i as int),
            decreases keys@.len() - i,
        {
            rest.push(keys[i]);
            i = i + 1;
            assert(keys@.subrange(first, i as int) =~= keys@.subrange(first, i - 1).push(keys@[i - 1]));
        }
        assert(rest@ =~= keys@.skip(first));
        rest
    }

    /// Handles pasted text as the keys that type its line; returns the keys
    /// that are left for a screen that is not open yet or kept elsewhere.
    pub fn handle_paste(&mut self, s: &str) -> (rest: Vec<KeyEvent>)
        requires
            old(self)@.wf(),
        ensures
            (final(self)@, rest@) == old(self)@.fed(paste::typed_keys(paste::one_line_of(s@))),
            final(self)@.wf(),
    {
        self.feed(paste_keys(s))
    }
}

// -------------------------------------------------------------------- laws

/// Pasting is typing: handling keys at once is handling some of them first and
/// then what is left, with the others behind.
pub proof fn keys_can_be_fed_in_parts(m: AppModel, a: Seq<KeyEvent>, b: Seq<KeyEvent>)
    ensures
        ({
            let (n, rest) = m.fed(a);
            m.fed(a + b) == n.fed(rest + b)
        }),
    decreases a.len(),
{
    if a.len() > 0 && m.takes_keys() {
        keys_can_be_fed_in_parts(m.on_key(a[0], None), a.drop_first(), b);
        assert((a + b).drop_first() =~= a.drop_first() + b);
    }
}

} // verus!
