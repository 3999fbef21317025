use vstd::prelude::*;

verus! {

/// The buffer size that the bounded queue between the handles and the driver
/// is made with. futures' bounded channel adds one guaranteed slot for each
/// live sender, so a sender waits once the buffer and its own slot are taken.
pub const QUEUE_CAPACITY: usize = 10;

/// What a handle sends to the driver.
#[derive(Debug)]
pub enum Event<Message> {
    /// An update for the program.
    Message(Message),
    /// Text to insert above the viewport.
    Print(String),
}

/// One item of the merged stream that the driver consumes: an event from a
/// handle, the result of the caller's task, or an interrupt.
#[derive(Debug)]
pub enum Input<Message, T> {
    Event(Event<Message>),
    Finished(T),
    Term,
}

/// The messages among `inputs`, in the order in which they were received.
pub open spec fn messages_of<Message, T>(inputs: Seq<Input<Message, T>>) -> Seq<Message>
    decreases inputs.len(),
{
    if inputs.len() == 0 {
        Seq::empty()
    } else {
        let rest = messages_of(inputs.drop_last());
        match inputs.last() {
            Input::Event(Event::Message(m)) => rest.push(m),
            _ => rest,
        }
    }
}

/// Messages interleaved with other inputs keep their order: the messages of
/// two stretches of input received one after the other are those of the
/// first stretch followed by those of the second.
pub proof fn messages_of_concat<Message, T>(a: Seq<Input<Message, T>>, b: Seq<Input<Message, T>>)
    ensures
        messages_of(a + b) == messages_of(a) + messages_of(b),
    decreases b.len(),
{
    if b.len() == 0 {
        assert(a + b =~= a);
        assert(messages_of(a) + messages_of(b) =~= messages_of(a));
    } else {
        messages_of_concat(a, b.drop_last());
        assert((a + b).drop_last() =~= a + b.drop_last());
        assert((a + b).last() == b.last());
        let ma = messages_of(a);
        let mb = messages_of(b.drop_last());
        match b.last() {
            Input::Event(Event::Message(m)) => {
                assert(ma + mb.push(m) =~= (ma + mb).push(m));
            },
            _ => {},
        }
    }
}

/// Whatever sequence of messages the queue hands over, the messages that reach
/// the program are exactly that sequence, in that order.
pub proof fn messages_in_queue_order<Message, T>(msgs: Seq<Message>)
    ensures
        messages_of(msgs.map_values(|m: Message| Input::<Message, T>::Event(Event::Message(m))))
            == msgs,
    decreases msgs.len(),
{
    let inputs = msgs.map_values(|m: Message| Input::<Message, T>::Event(Event::Message(m)));
    if msgs.len() > 0 {
        messages_in_queue_order::<Message, T>(msgs.drop_last());
        assert(inputs.drop_last() =~= msgs.drop_last().map_values(
            |m: Message| Input::<Message, T>::Event(Event::Message(m)),
        ));
        assert(msgs.drop_last().push(msgs.last()) =~= msgs);
    } else {
        assert(msgs =~= Seq::empty());
    }
}

} // verus!
