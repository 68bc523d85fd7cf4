use vstd::prelude::*;

verus! {

/// A transcript of one session together with a turn counter.
///
/// The local side may submit on every turn whose number is a multiple of
/// its offset.
#[derive(Default, Debug)]
pub struct SessionInstance {
    content: Vec<String>,
    turn: u32,
    our_offset: u8,
}

impl SessionInstance {
    /// The parts submitted so far, oldest first.
    pub closed spec fn content(&self) -> Seq<Seq<char>> {
        self.content@.map_values(|s: String| s@)
    }

    /// The number of parts submitted so far.
    pub closed spec fn turn(&self) -> nat {
        self.turn as nat
    }

    /// The spacing of the local side's turns.
    pub closed spec fn offset(&self) -> nat {
        self.our_offset as nat
    }

    pub fn new(offset: u8) -> (r: SessionInstance)
        ensures
            r.content() == Seq::<Seq<char>>::empty(),
            r.turn() == 0,
            r.offset() == offset as nat,
    {
        let r = SessionInstance { content: Vec::new(), turn: 0, our_offset: offset };
        assert(r.content() =~= Seq::<Seq<char>>::empty());
        r
    }

    pub fn can_submit(&self) -> (r: bool)
        requires
            self.offset() > 0,
        ensures
            r == (self.turn() % self.offset() == 0),
    {
        self.turn % (self.our_offset as u32) == 0
    }

    pub fn submit(&mut self, new_part: String)
        requires
            old(self).turn() < u32::MAX,
        ensures
            final(self).content() == old(self).content().push(new_part@),
            final(self).turn() == old(self).turn() + 1,
            final(self).offset() == old(self).offset(),
    {
        self.content.push(new_part);
        self.turn = self.turn + 1;
        assert(self.content() =~= old(self).content().push(new_part@));
    }
}

} // verus!
