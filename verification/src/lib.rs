//! Message-layer core of a DIDComm mediator: versioned protocol message-type
//! resolution, the mediation-coordination and device-info state machines, and
//! the recipient-key normalizer, with machine-checked contracts.

pub mod codec;
pub mod coordinate_mediation;
pub mod coordination;
pub mod device_info;
pub mod msg_parts;
pub mod msg_types;
pub mod normalize;
pub mod persistence;
pub mod push_notifications_fcm;
pub mod strings;
pub mod structs;
