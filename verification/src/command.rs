//! The command set: a closed tagged union, one variant per request the peer
//! can send. A value is built by decoding one line of input, consumed exactly
//! once by the dispatcher, and answered with exactly one response envelope.

use vstd::prelude::*;
use crate::descriptor::CommandBuilder;
use crate::json::Json;

verus! {

/// One request from the peer.
#[allow(non_camel_case_types)]
#[derive(Debug, PartialEq, Eq)]
pub enum Command {
    read(String),
    write { path: String, text: String, must_new: Option<bool> },
    append { path: String, text: String, must_exist: Option<bool> },
    read_dir(String),
    read_link(String),
    metadata(String),
    metadata_extra(String),
    path_exists(String),
    is_symlink(String),
    is_dir(String),
    is_file(String),
    print(Json),
    println(Json),
    pretty(Json),
    pretty_pipe(Json),
    stdin,
    stdin_line,
    current_dir,
    temp_dir,
    get_env(String),
    set_env(String, String),
    remove_env(String),
    system(String, Vec<String>),
    popen(String, Vec<String>),
    command(String, CommandBuilder),
    wait_id { id: u32, output: Option<bool> },
    kill_id { id: u32 },
    process_id,
    random,
    random_float,
    exit(i32),
}

} // verus!
