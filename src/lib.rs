//! Trace context propagation across a topic/queue messaging hop: attribute
//! carriers, payload framing with envelope unwrapping, and the consumer's
//! polling state machine.
pub mod attributes;
pub mod carrier;
pub mod json;
pub mod payload;
pub mod consumer;

pub use carrier::MessageAttributesExtractor as SqsMessageAttributesExtractor;
pub use carrier::MessageAttributesInjector as SnsMessageAttributesInjector;
