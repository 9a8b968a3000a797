//! What the V Voice application decides and computes: which engine gets a recording and what it is
//! asked, what is read out of the answers, how the local servers are started, what is downloaded and
//! how, and what is kept from one run to the next.

pub mod archive;
pub mod download;
pub mod granite;
pub mod paths;
pub mod pill;
pub mod reply;
pub mod request;
pub mod run;
pub mod settings;
pub mod shell;
pub mod sherpa;
pub mod text;
pub mod transcribe;
pub mod wav;
pub mod whisper_server;
pub mod zipformer;
