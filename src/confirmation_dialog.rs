use vstd::prelude::*;

verus! {

/// The destructive action that a confirmation prompt guards.
#[derive(Clone, Copy, Debug, PartialEq, Eq, Structural)]
pub enum ConfirmationTopic {
    WorkoutDeletion,
    Clearance,
}

/// What a confirmation prompt shows and what it answers: the optional
/// message, the topic it guards and whether the user confirmed.
#[derive(Debug)]
pub struct ConfirmationPayload {
    pub message: Option<String>,
    pub topic: ConfirmationTopic,
    pub confirmed: bool,
}

impl ConfirmationPayload {
    /// A prompt on `topic` that has not been confirmed yet.
    pub fn new(topic: ConfirmationTopic, message: Option<String>) -> (r: ConfirmationPayload)
        ensures
            r.topic == topic,
            r.message == message,
            !r.confirmed,
    {
        ConfirmationPayload { topic, message, confirmed: false }
    }

    /// The same prompt, answered with "confirmed".
    pub fn confirm(self) -> (r: ConfirmationPayload)
        ensures
            r.topic == self.topic,
            r.message == self.message,
            r.confirmed,
    {
        ConfirmationPayload { confirmed: true, ..self }
    }
}

impl Clone for ConfirmationPayload {
    fn clone(&self) -> (r: ConfirmationPayload)
        ensures
            r == *self,
    {
        let message = match &self.message {
            Some(m) => Some(m.clone()),
            None => None,
        };
        ConfirmationPayload { message, topic: self.topic, confirmed: self.confirmed }
    }
}

} // verus!
