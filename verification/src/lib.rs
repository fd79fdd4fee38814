//! Client-side logic for outsourced coSNARK proving: decoding the keys of
//! node providers, sealing secret shares for the three parties of a job,
//! checking the signatures that node providers put on proof results, and
//! interpreting the replies of the result stream.

pub mod codec;
pub mod keys;
pub mod models;
pub mod node;
pub mod signature;
pub mod sealing;
pub mod witness;
pub mod websocket;
pub mod results;
pub mod wasm;
pub mod ppd;
