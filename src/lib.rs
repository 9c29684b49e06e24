//! A peer-to-peer IoT node: the typed measurement and actuation model, the
//! rule engine, the in-memory mesh store, the supervisor's routing of
//! actuation requests, the decisions of the node's event loop, the device
//! logic, and the wire framing of actuation messages.
pub mod actuation;
pub mod assoc;
pub mod codec;
pub mod control;
pub mod device;
pub mod hardware;
pub mod measurement;
pub mod node_id;
pub mod store;
pub mod system;
pub mod text;
