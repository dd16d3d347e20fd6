use vstd::prelude::*;

verus! {

/// The slot of an observer of an application's message stream: it keeps the
/// latest message that the observer's predicate accepted, until a waiter
/// takes it.
pub struct Observer<MSG> {
    result: core::option::Option<MSG>,
}

impl<MSG> View for Observer<MSG> {
    type V = core::option::Option<MSG>;

    closed spec fn view(&self) -> core::option::Option<MSG> {
        self.result
    }
}

impl<MSG> Observer<MSG> {
    /// An observer that has seen no accepted message yet.
    pub fn new() -> (r: Self)
        ensures
            r@ == core::option::Option::<MSG>::None,
    {
        Observer { result: None }
    }

    /// Hands the observer a message of the stream: it is kept, in place of
    /// any earlier one, if and only if `predicate` accepts it.
    pub fn notify<F: Fn(&MSG) -> bool>(&mut self, predicate: &F, msg: MSG)
        requires
            predicate.requires((&msg,)),
        ensures
            exists|accepted: bool|
                #[trigger] predicate.ensures((&msg,), accepted) && final(self)@ == (if accepted {
                    Some(msg)
                } else {
                    old(self)@
                }),
    {
        let accepted = predicate(&msg);
        if accepted {
            self.result = Some(msg);
        }
    }

    /// One step of waiting: takes the accepted message if there is one and
    /// leaves the slot empty; `None` means the event loop must run before the
    /// next step.
    pub fn wait(&mut self) -> (r: core::option::Option<MSG>)
        ensures
            r == old(self)@,
            final(self)@ == core::option::Option::<MSG>::None,
    {
        let r = self.result.take();
        r
    }
}

} // verus!
