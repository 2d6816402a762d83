mod b64;
mod errors;
mod gen_pass;
mod opts;
mod text;

pub use b64::{process_decode, process_encode, Base64Format};
pub use errors::TextError;
pub use gen_pass::process_genpass;
pub use opts::{verify_file, verify_input_file};
pub use text::{
    process_text_generate, process_text_sign, process_text_verify, Blake3, Ed25519Signer,
    Ed25519Verifier, KeyGenerator, KeyLoader, TextSign, TextSignFormat, TextVerify,
};
