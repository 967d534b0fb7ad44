use vstd::prelude::*;

verus! {

/// What the active scene asks of the stack after a frame.
pub enum Transition<S> {
    /// Keep the stack as it is.
    Stay,
    /// Suspend the active scene and make the given one active.
    Push(S),
    /// Leave the active scene and resume the one beneath it.
    Pop,
}

/// The stack after a transition is applied to it.
pub open spec fn applied<S>(stack: Seq<S>, t: Transition<S>) -> Seq<S> {
    match t {
        Transition::Stay => stack,
        Transition::Push(s) => stack.push(s),
        Transition::Pop => if stack.len() > 0 {
            stack.drop_last()
        } else {
            stack
        },
    }
}

/// An ordered sequence of scenes; only the last one is active.
pub struct SceneStack<S> {
    scenes: Vec<S>,
}

impl<S> View for SceneStack<S> {
    type V = Seq<S>;

    closed spec fn view(&self) -> Seq<S> {
        self.scenes@
    }
}

impl<S> SceneStack<S> {
    /// A stack holding one scene, which is active.
    pub fn new(initial: S) -> (r: SceneStack<S>)
        ensures
            r@ == seq![initial],
    {
        let mut scenes: Vec<S> = Vec::new();
        scenes.push(initial);
        SceneStack { scenes }
    }

    pub fn len(&self) -> (r: usize)
        ensures
            r == self@.len(),
    {
        self.scenes.len()
    }

    /// True when no scene is left: the game is over.
    pub fn is_empty(&self) -> (r: bool)
        ensures
            r == (self@.len() == 0),
    {
        self.scenes.len() == 0
    }

    /// Applies a transition: push a scene, pop the active one, or nothing.
    /// Popping an empty stack leaves it empty.
    pub fn apply(&mut self, t: Transition<S>)
        ensures
            final(self)@ == applied(old(self)@, t),
    {
        match t {
            Transition::Stay => {},
            Transition::Push(s) => {
                self.scenes.push(s);
            },
            Transition::Pop => {
                let _ = self.scenes.pop();
            },
        }
    }

    /// Takes the active scene off the stack so that it can run its frame;
    /// `None` when the stack is empty.
    pub fn take_active(&mut self) -> (r: Option<S>)
        ensures
            old(self)@.len() == 0 ==> r is None && final(self)@ == old(self)@,
            old(self)@.len() > 0 ==> r == Some(old(self)@.last()) && final(self)@
                == old(self)@.drop_last(),
    {
        self.scenes.pop()
    }

    /// Puts back the scene taken by `take_active`, then applies the
    /// transition that it asked for.
    pub fn resume(&mut self, active: S, t: Transition<S>)
        ensures
            final(self)@ == applied(old(self)@.push(active), t),
    {
        self.scenes.push(active);
        self.apply(t);
    }
}

/// Taking the active scene and putting it back with no transition leaves
/// the stack as it was.
pub proof fn lemma_take_then_resume_keeps<S>(stack: Seq<S>)
    requires
        stack.len() > 0,
    ensures
        applied(stack.drop_last().push(stack.last()), Transition::Stay) == stack,
{
    assert(stack.drop_last().push(stack.last()) =~= stack);
}

/// Pushing a scene and then popping it gives back the stack from before.
pub proof fn lemma_push_then_pop<S>(stack: Seq<S>, s: S)
    ensures
        applied(applied(stack, Transition::Push(s)), Transition::Pop) == stack,
{
    assert(stack.push(s).drop_last() =~= stack);
}

} // verus!
