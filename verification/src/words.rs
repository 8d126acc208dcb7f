//! The words and messages of the wire protocols, as bytes.

use vstd::prelude::*;

verus! {

/// The bytes of the verb `get`.
pub open spec fn word_get() -> Seq<u8> {
    seq![103u8, 101, 116]
}

/// The bytes of the verb `get`.
pub fn lit_get() -> (word: Vec<u8>)
    ensures
        word@ == word_get(),
{
    vec![103, 101, 116]
}

/// The bytes of the verb `set`.
pub open spec fn word_set() -> Seq<u8> {
    seq![115u8, 101, 116]
}

/// The bytes of the verb `set`.
pub fn lit_set() -> (word: Vec<u8>)
    ensures
        word@ == word_set(),
{
    vec![115, 101, 116]
}

/// The bytes of the verb `delete`.
pub open spec fn word_delete() -> Seq<u8> {
    seq![100u8, 101, 108, 101, 116, 101]
}

/// The bytes of the verb `delete`.
pub fn lit_delete() -> (word: Vec<u8>)
    ensures
        word@ == word_delete(),
{
    vec![100, 101, 108, 101, 116, 101]
}

/// The bytes of the option `noreply`.
pub open spec fn word_noreply() -> Seq<u8> {
    seq![110u8, 111, 114, 101, 112, 108, 121]
}

/// The bytes of the option `noreply`.
pub fn lit_noreply() -> (word: Vec<u8>)
    ensures
        word@ == word_noreply(),
{
    vec![110, 111, 114, 101, 112, 108, 121]
}

/// The bytes of the word `VALUE` that opens a value frame.
pub open spec fn word_value() -> Seq<u8> {
    seq![86u8, 65, 76, 85, 69]
}

/// The bytes of the word `VALUE` that opens a value frame.
pub fn lit_value() -> (word: Vec<u8>)
    ensures
        word@ == word_value(),
{
    vec![86, 65, 76, 85, 69]
}

/// The bytes of the word `END` that closes a list of value frames.
pub open spec fn word_end() -> Seq<u8> {
    seq![69u8, 78, 68]
}

/// The bytes of the word `END` that closes a list of value frames.
pub fn lit_end() -> (word: Vec<u8>)
    ensures
        word@ == word_end(),
{
    vec![69, 78, 68]
}

/// The bytes of the reply `STORED`.
pub open spec fn word_stored() -> Seq<u8> {
    seq![83u8, 84, 79, 82, 69, 68]
}

/// The bytes of the reply `STORED`.
pub fn lit_stored() -> (word: Vec<u8>)
    ensures
        word@ == word_stored(),
{
    vec![83, 84, 79, 82, 69, 68]
}

/// The bytes of the reply `NOT_FOUND`.
pub open spec fn word_not_found() -> Seq<u8> {
    seq![78u8, 79, 84, 95, 70, 79, 85, 78, 68]
}

/// The bytes of the reply `NOT_FOUND`.
pub fn lit_not_found() -> (word: Vec<u8>)
    ensures
        word@ == word_not_found(),
{
    vec![78, 79, 84, 95, 70, 79, 85, 78, 68]
}

/// The bytes of the reply `DELETED`.
pub open spec fn word_deleted() -> Seq<u8> {
    seq![68u8, 69, 76, 69, 84, 69, 68]
}

/// The bytes of the reply `DELETED`.
pub fn lit_deleted() -> (word: Vec<u8>)
    ensures
        word@ == word_deleted(),
{
    vec![68, 69, 76, 69, 84, 69, 68]
}

/// The bytes of the reply `ERROR`.
pub open spec fn word_error() -> Seq<u8> {
    seq![69u8, 82, 82, 79, 82]
}

/// The bytes of the reply `ERROR`.
pub fn lit_error() -> (word: Vec<u8>)
    ensures
        word@ == word_error(),
{
    vec![69, 82, 82, 79, 82]
}

/// The bytes of the word `CLIENT_ERROR`.
pub open spec fn word_client_error() -> Seq<u8> {
    seq![67u8, 76, 73, 69, 78, 84, 95, 69, 82, 82, 79, 82]
}

/// The bytes of the word `CLIENT_ERROR`.
pub fn lit_client_error() -> (word: Vec<u8>)
    ensures
        word@ == word_client_error(),
{
    vec![67, 76, 73, 69, 78, 84, 95, 69, 82, 82, 79, 82]
}

/// The bytes of the word `SERVER_ERROR`.
pub open spec fn word_server_error() -> Seq<u8> {
    seq![83u8, 69, 82, 86, 69, 82, 95, 69, 82, 82, 79, 82]
}

/// The bytes of the word `SERVER_ERROR`.
pub fn lit_server_error() -> (word: Vec<u8>)
    ensures
        word@ == word_server_error(),
{
    vec![83, 69, 82, 86, 69, 82, 95, 69, 82, 82, 79, 82]
}

/// The bytes of the message `backend timeout`.
pub open spec fn word_backend_timeout() -> Seq<u8> {
    seq![98u8, 97, 99, 107, 101, 110, 100, 32, 116, 105, 109, 101, 111, 117, 116]
}

/// The bytes of the message `backend timeout`.
pub fn lit_backend_timeout() -> (word: Vec<u8>)
    ensures
        word@ == word_backend_timeout(),
{
    vec![98, 97, 99, 107, 101, 110, 100, 32, 116, 105, 109, 101, 111, 117, 116]
}

/// The bytes of the message `empty values not supported`.
pub open spec fn word_empty_value() -> Seq<u8> {
    seq![101u8, 109, 112, 116, 121, 32, 118, 97, 108, 117, 101, 115, 32, 110, 111, 116, 32, 115, 117, 112, 112, 111, 114, 116, 101, 100]
}

/// The bytes of the message `empty values not supported`.
pub fn lit_empty_value() -> (word: Vec<u8>)
    ensures
        word@ == word_empty_value(),
{
    vec![101, 109, 112, 116, 121, 32, 118, 97, 108, 117, 101, 115, 32, 110, 111, 116, 32, 115, 117, 112, 112, 111, 114, 116, 101, 100]
}

/// The bytes of the words `Set failed: ` that open the message of a refused `set`.
pub open spec fn word_set_failed() -> Seq<u8> {
    seq![83u8, 101, 116, 32, 102, 97, 105, 108, 101, 100, 58, 32]
}

/// The bytes of the words `Set failed: ` that open the message of a refused `set`.
pub fn lit_set_failed() -> (word: Vec<u8>)
    ensures
        word@ == word_set_failed(),
{
    vec![83, 101, 116, 32, 102, 97, 105, 108, 101, 100, 58, 32]
}

/// The bytes of the words `Delete failed: ` that open the message of a refused `delete`.
pub open spec fn word_delete_failed() -> Seq<u8> {
    seq![68u8, 101, 108, 101, 116, 101, 32, 102, 97, 105, 108, 101, 100, 58, 32]
}

/// The bytes of the words `Delete failed: ` that open the message of a refused `delete`.
pub fn lit_delete_failed() -> (word: Vec<u8>)
    ensures
        word@ == word_delete_failed(),
{
    vec![68, 101, 108, 101, 116, 101, 32, 102, 97, 105, 108, 101, 100, 58, 32]
}

/// The bytes of the scheme `memcache://` of a server address.
pub open spec fn word_scheme() -> Seq<u8> {
    seq![109u8, 101, 109, 99, 97, 99, 104, 101, 58, 47, 47]
}

/// The bytes of the scheme `memcache://` of a server address.
pub fn lit_scheme() -> (word: Vec<u8>)
    ensures
        word@ == word_scheme(),
{
    vec![109, 101, 109, 99, 97, 99, 104, 101, 58, 47, 47]
}

/// The bytes of the words `-ERR ` that open a RESP error.
pub open spec fn word_resp_err() -> Seq<u8> {
    seq![45u8, 69, 82, 82, 32]
}

/// The bytes of the words `-ERR ` that open a RESP error.
pub fn lit_resp_err() -> (word: Vec<u8>)
    ensures
        word@ == word_resp_err(),
{
    vec![45, 69, 82, 82, 32]
}

/// The bytes of the words `unsupported command: `.
pub open spec fn word_unsupported_command() -> Seq<u8> {
    seq![117u8, 110, 115, 117, 112, 112, 111, 114, 116, 101, 100, 32, 99, 111, 109, 109, 97, 110, 100, 58, 32]
}

/// The bytes of the words `unsupported command: `.
pub fn lit_unsupported_command() -> (word: Vec<u8>)
    ensures
        word@ == word_unsupported_command(),
{
    vec![117, 110, 115, 117, 112, 112, 111, 114, 116, 101, 100, 32, 99, 111, 109, 109, 97, 110, 100, 58, 32]
}

/// The bytes of the words `backend error: `.
pub open spec fn word_backend_error() -> Seq<u8> {
    seq![98u8, 97, 99, 107, 101, 110, 100, 32, 101, 114, 114, 111, 114, 58, 32]
}

/// The bytes of the words `backend error: `.
pub fn lit_backend_error() -> (word: Vec<u8>)
    ensures
        word@ == word_backend_error(),
{
    vec![98, 97, 99, 107, 101, 110, 100, 32, 101, 114, 114, 111, 114, 58, 32]
}

/// The bytes of the message `malformed request`.
pub open spec fn word_malformed_request() -> Seq<u8> {
    seq![109u8, 97, 108, 102, 111, 114, 109, 101, 100, 32, 114, 101, 113, 117, 101, 115, 116]
}

/// The bytes of the message `malformed request`.
pub fn lit_malformed_request() -> (word: Vec<u8>)
    ensures
        word@ == word_malformed_request(),
{
    vec![109, 97, 108, 102, 111, 114, 109, 101, 100, 32, 114, 101, 113, 117, 101, 115, 116]
}

/// The bytes of the score boundary `+inf`.
pub open spec fn word_plus_inf() -> Seq<u8> {
    seq![43u8, 105, 110, 102]
}

/// The bytes of the score boundary `+inf`.
pub fn lit_plus_inf() -> (word: Vec<u8>)
    ensures
        word@ == word_plus_inf(),
{
    vec![43, 105, 110, 102]
}

/// The bytes of the score boundary `-inf`.
pub open spec fn word_minus_inf() -> Seq<u8> {
    seq![45u8, 105, 110, 102]
}

/// The bytes of the score boundary `-inf`.
pub fn lit_minus_inf() -> (word: Vec<u8>)
    ensures
        word@ == word_minus_inf(),
{
    vec![45, 105, 110, 102]
}

/// The bytes of the message `ZRANGE index is not valid utf8`.
pub open spec fn word_index_not_utf8() -> Seq<u8> {
    seq![90u8, 82, 65, 78, 71, 69, 32, 105, 110, 100, 101, 120, 32, 105, 115, 32, 110, 111, 116, 32, 118, 97, 108, 105, 100, 32, 117, 116, 102, 56]
}

/// The bytes of the message `ZRANGE index is not valid utf8`.
pub fn lit_index_not_utf8() -> (word: Vec<u8>)
    ensures
        word@ == word_index_not_utf8(),
{
    vec![90, 82, 65, 78, 71, 69, 32, 105, 110, 100, 101, 120, 32, 105, 115, 32, 110, 111, 116, 32, 118, 97, 108, 105, 100, 32, 117, 116, 102, 56]
}

/// The bytes of the message `ZRANGE index is not an integer`.
pub open spec fn word_index_not_integer() -> Seq<u8> {
    seq![90u8, 82, 65, 78, 71, 69, 32, 105, 110, 100, 101, 120, 32, 105, 115, 32, 110, 111, 116, 32, 97, 110, 32, 105, 110, 116, 101, 103, 101, 114]
}

/// The bytes of the message `ZRANGE index is not an integer`.
pub fn lit_index_not_integer() -> (word: Vec<u8>)
    ensures
        word@ == word_index_not_integer(),
{
    vec![90, 82, 65, 78, 71, 69, 32, 105, 110, 100, 101, 120, 32, 105, 115, 32, 110, 111, 116, 32, 97, 110, 32, 105, 110, 116, 101, 103, 101, 114]
}

/// The bytes of the message `ZRANGE score is not valid utf8`.
pub open spec fn word_score_not_utf8() -> Seq<u8> {
    seq![90u8, 82, 65, 78, 71, 69, 32, 115, 99, 111, 114, 101, 32, 105, 115, 32, 110, 111, 116, 32, 118, 97, 108, 105, 100, 32, 117, 116, 102, 56]
}

/// The bytes of the message `ZRANGE score is not valid utf8`.
pub fn lit_score_not_utf8() -> (word: Vec<u8>)
    ensures
        word@ == word_score_not_utf8(),
{
    vec![90, 82, 65, 78, 71, 69, 32, 115, 99, 111, 114, 101, 32, 105, 115, 32, 110, 111, 116, 32, 118, 97, 108, 105, 100, 32, 117, 116, 102, 56]
}

/// The bytes of the message `ZRANGE score is not a float`.
pub open spec fn word_score_not_float() -> Seq<u8> {
    seq![90u8, 82, 65, 78, 71, 69, 32, 115, 99, 111, 114, 101, 32, 105, 115, 32, 110, 111, 116, 32, 97, 32, 102, 108, 111, 97, 116]
}

/// The bytes of the message `ZRANGE score is not a float`.
pub fn lit_score_not_float() -> (word: Vec<u8>)
    ensures
        word@ == word_score_not_float(),
{
    vec![90, 82, 65, 78, 71, 69, 32, 115, 99, 111, 114, 101, 32, 105, 115, 32, 110, 111, 116, 32, 97, 32, 102, 108, 111, 97, 116]
}

/// The bytes of the message `Momento proxy does not support BYLEX for ZRANGE`.
pub open spec fn word_bylex_unsupported() -> Seq<u8> {
    seq![77u8, 111, 109, 101, 110, 116, 111, 32, 112, 114, 111, 120, 121, 32, 100, 111, 101, 115, 32, 110, 111, 116, 32, 115, 117, 112, 112, 111, 114, 116, 32, 66, 89, 76, 69, 88, 32, 102, 111, 114, 32, 90, 82, 65, 78, 71, 69]
}

/// The bytes of the message `Momento proxy does not support BYLEX for ZRANGE`.
pub fn lit_bylex_unsupported() -> (word: Vec<u8>)
    ensures
        word@ == word_bylex_unsupported(),
{
    vec![77, 111, 109, 101, 110, 116, 111, 32, 112, 114, 111, 120, 121, 32, 100, 111, 101, 115, 32, 110, 111, 116, 32, 115, 117, 112, 112, 111, 114, 116, 32, 66, 89, 76, 69, 88, 32, 102, 111, 114, 32, 90, 82, 65, 78, 71, 69]
}

/// The bytes of the message `malformed command`.
pub open spec fn word_malformed_command() -> Seq<u8> {
    seq![109u8, 97, 108, 102, 111, 114, 109, 101, 100, 32, 99, 111, 109, 109, 97, 110, 100]
}

/// The bytes of the message `malformed command`.
pub fn lit_malformed_command() -> (word: Vec<u8>)
    ensures
        word@ == word_malformed_command(),
{
    vec![109, 97, 108, 102, 111, 114, 109, 101, 100, 32, 99, 111, 109, 109, 97, 110, 100]
}

/// The bytes of the message `Momento proxy does not support CH, XX, NX, GT, or LT optional arguments`.
pub open spec fn word_zadd_options_unsupported() -> Seq<u8> {
    seq![77u8, 111, 109, 101, 110, 116, 111, 32, 112, 114, 111, 120, 121, 32, 100, 111, 101, 115, 32, 110, 111, 116, 32, 115, 117, 112, 112, 111, 114, 116, 32, 67, 72, 44, 32, 88, 88, 44, 32, 78, 88, 44, 32, 71, 84, 44, 32, 111, 114, 32, 76, 84, 32, 111, 112, 116, 105, 111, 110, 97, 108, 32, 97, 114, 103, 117, 109, 101, 110, 116, 115]
}

/// The bytes of the message `Momento proxy does not support CH, XX, NX, GT, or LT optional arguments`.
pub fn lit_zadd_options_unsupported() -> (word: Vec<u8>)
    ensures
        word@ == word_zadd_options_unsupported(),
{
    vec![77, 111, 109, 101, 110, 116, 111, 32, 112, 114, 111, 120, 121, 32, 100, 111, 101, 115, 32, 110, 111, 116, 32, 115, 117, 112, 112, 111, 114, 116, 32, 67, 72, 44, 32, 88, 88, 44, 32, 78, 88, 44, 32, 71, 84, 44, 32, 111, 114, 32, 76, 84, 32, 111, 112, 116, 105, 111, 110, 97, 108, 32, 97, 114, 103, 117, 109, 101, 110, 116, 115]
}

/// The bytes of the message `unsupported`.
pub open spec fn word_unsupported() -> Seq<u8> {
    seq![117u8, 110, 115, 117, 112, 112, 111, 114, 116, 101, 100]
}

/// The bytes of the message `unsupported`.
pub fn lit_unsupported() -> (word: Vec<u8>)
    ensures
        word@ == word_unsupported(),
{
    vec![117, 110, 115, 117, 112, 112, 111, 114, 116, 101, 100]
}

/// The bytes of the error code `INTERNAL_SERVER_ERROR`.
pub open spec fn word_internal_server_error() -> Seq<u8> {
    seq![73u8, 78, 84, 69, 82, 78, 65, 76, 95, 83, 69, 82, 86, 69, 82, 95, 69, 82, 82, 79, 82]
}

/// The bytes of the error code `INTERNAL_SERVER_ERROR`.
pub fn lit_internal_server_error() -> (word: Vec<u8>)
    ensures
        word@ == word_internal_server_error(),
{
    vec![73, 78, 84, 69, 82, 78, 65, 76, 95, 83, 69, 82, 86, 69, 82, 95, 69, 82, 82, 79, 82]
}

/// The bytes of the call name `memcached_get`.
pub open spec fn word_memcached_get() -> Seq<u8> {
    seq![109u8, 101, 109, 99, 97, 99, 104, 101, 100, 95, 103, 101, 116]
}

/// The bytes of the call name `memcached_get`.
pub fn lit_memcached_get() -> (word: Vec<u8>)
    ensures
        word@ == word_memcached_get(),
{
    vec![109, 101, 109, 99, 97, 99, 104, 101, 100, 95, 103, 101, 116]
}

/// The bytes of the call name `memcached_set`.
pub open spec fn word_memcached_set() -> Seq<u8> {
    seq![109u8, 101, 109, 99, 97, 99, 104, 101, 100, 95, 115, 101, 116]
}

/// The bytes of the call name `memcached_set`.
pub fn lit_memcached_set() -> (word: Vec<u8>)
    ensures
        word@ == word_memcached_set(),
{
    vec![109, 101, 109, 99, 97, 99, 104, 101, 100, 95, 115, 101, 116]
}

/// The bytes of the call name `memcached_delete`.
pub open spec fn word_memcached_delete() -> Seq<u8> {
    seq![109u8, 101, 109, 99, 97, 99, 104, 101, 100, 95, 100, 101, 108, 101, 116, 101]
}

/// The bytes of the call name `memcached_delete`.
pub fn lit_memcached_delete() -> (word: Vec<u8>)
    ensures
        word@ == word_memcached_delete(),
{
    vec![109, 101, 109, 99, 97, 99, 104, 101, 100, 95, 100, 101, 108, 101, 116, 101]
}

/// The bytes of the call name `memcached_unimplemented`.
pub open spec fn word_memcached_unimplemented() -> Seq<u8> {
    seq![109u8, 101, 109, 99, 97, 99, 104, 101, 100, 95, 117, 110, 105, 109, 112, 108, 101, 109, 101, 110, 116, 101, 100]
}

/// The bytes of the call name `memcached_unimplemented`.
pub fn lit_memcached_unimplemented() -> (word: Vec<u8>)
    ensures
        word@ == word_memcached_unimplemented(),
{
    vec![109, 101, 109, 99, 97, 99, 104, 101, 100, 95, 117, 110, 105, 109, 112, 108, 101, 109, 101, 110, 116, 101, 100]
}

/// The bytes of the call name `resp_unimplemented`.
pub open spec fn word_resp_unimplemented() -> Seq<u8> {
    seq![114u8, 101, 115, 112, 95, 117, 110, 105, 109, 112, 108, 101, 109, 101, 110, 116, 101, 100]
}

/// The bytes of the call name `resp_unimplemented`.
pub fn lit_resp_unimplemented() -> (word: Vec<u8>)
    ensures
        word@ == word_resp_unimplemented(),
{
    vec![114, 101, 115, 112, 95, 117, 110, 105, 109, 112, 108, 101, 109, 101, 110, 116, 101, 100]
}

/// The bytes of the result `ok`.
pub open spec fn word_result_ok() -> Seq<u8> {
    seq![111u8, 107]
}

/// The bytes of the result `ok`.
pub fn lit_result_ok() -> (word: Vec<u8>)
    ensures
        word@ == word_result_ok(),
{
    vec![111, 107]
}

/// The bytes of the result `error`.
pub open spec fn word_result_error() -> Seq<u8> {
    seq![101u8, 114, 114, 111, 114]
}

/// The bytes of the result `error`.
pub fn lit_result_error() -> (word: Vec<u8>)
    ensures
        word@ == word_result_error(),
{
    vec![101, 114, 114, 111, 114]
}

/// The bytes of the result `timeout`.
pub open spec fn word_result_timeout() -> Seq<u8> {
    seq![116u8, 105, 109, 101, 111, 117, 116]
}

/// The bytes of the result `timeout`.
pub fn lit_result_timeout() -> (word: Vec<u8>)
    ensures
        word@ == word_result_timeout(),
{
    vec![116, 105, 109, 101, 111, 117, 116]
}

/// The bytes of the result `miss`.
pub open spec fn word_result_miss() -> Seq<u8> {
    seq![109u8, 105, 115, 115]
}

/// The bytes of the result `miss`.
pub fn lit_result_miss() -> (word: Vec<u8>)
    ensures
        word@ == word_result_miss(),
{
    vec![109, 105, 115, 115]
}

/// The bytes of the result `hit`.
pub open spec fn word_result_hit() -> Seq<u8> {
    seq![104u8, 105, 116]
}

/// The bytes of the result `hit`.
pub fn lit_result_hit() -> (word: Vec<u8>)
    ensures
        word@ == word_result_hit(),
{
    vec![104, 105, 116]
}

/// The bytes of the source `mcache`.
pub open spec fn word_source_mcache() -> Seq<u8> {
    seq![109u8, 99, 97, 99, 104, 101]
}

/// The bytes of the source `mcache`.
pub fn lit_source_mcache() -> (word: Vec<u8>)
    ensures
        word@ == word_source_mcache(),
{
    vec![109, 99, 97, 99, 104, 101]
}

/// The bytes of the source `momento`.
pub open spec fn word_source_momento() -> Seq<u8> {
    seq![109u8, 111, 109, 101, 110, 116, 111]
}

/// The bytes of the source `momento`.
pub fn lit_source_momento() -> (word: Vec<u8>)
    ensures
        word@ == word_source_momento(),
{
    vec![109, 111, 109, 101, 110, 116, 111]
}

/// The bytes of the message `internal error`.
pub open spec fn word_internal_error() -> Seq<u8> {
    seq![105u8, 110, 116, 101, 114, 110, 97, 108, 32, 101, 114, 114, 111, 114]
}

/// The bytes of the message `internal error`.
pub fn lit_internal_error() -> (word: Vec<u8>)
    ensures
        word@ == word_internal_error(),
{
    vec![105, 110, 116, 101, 114, 110, 97, 108, 32, 101, 114, 114, 111, 114]
}

/// The bytes of the option `BYSCORE`, in lower case.
pub open spec fn word_byscore() -> Seq<u8> {
    seq![98u8, 121, 115, 99, 111, 114, 101]
}

/// The bytes of the option `BYSCORE`, in lower case.
pub fn lit_byscore() -> (word: Vec<u8>)
    ensures
        word@ == word_byscore(),
{
    vec![98, 121, 115, 99, 111, 114, 101]
}

/// The bytes of the option `BYLEX`, in lower case.
pub open spec fn word_bylex() -> Seq<u8> {
    seq![98u8, 121, 108, 101, 120]
}

/// The bytes of the option `BYLEX`, in lower case.
pub fn lit_bylex() -> (word: Vec<u8>)
    ensures
        word@ == word_bylex(),
{
    vec![98, 121, 108, 101, 120]
}

/// The bytes of the option `REV`, in lower case.
pub open spec fn word_rev() -> Seq<u8> {
    seq![114u8, 101, 118]
}

/// The bytes of the option `REV`, in lower case.
pub fn lit_rev() -> (word: Vec<u8>)
    ensures
        word@ == word_rev(),
{
    vec![114, 101, 118]
}

/// The bytes of the option `LIMIT`, in lower case.
pub open spec fn word_limit() -> Seq<u8> {
    seq![108u8, 105, 109, 105, 116]
}

/// The bytes of the option `LIMIT`, in lower case.
pub fn lit_limit() -> (word: Vec<u8>)
    ensures
        word@ == word_limit(),
{
    vec![108, 105, 109, 105, 116]
}

/// The bytes of the option `WITHSCORES`, in lower case.
pub open spec fn word_withscores() -> Seq<u8> {
    seq![119u8, 105, 116, 104, 115, 99, 111, 114, 101, 115]
}

/// The bytes of the option `WITHSCORES`, in lower case.
pub fn lit_withscores() -> (word: Vec<u8>)
    ensures
        word@ == word_withscores(),
{
    vec![119, 105, 116, 104, 115, 99, 111, 114, 101, 115]
}

/// The bytes of the option `NX`, in lower case.
pub open spec fn word_nx() -> Seq<u8> {
    seq![110u8, 120]
}

/// The bytes of the option `NX`, in lower case.
pub fn lit_nx() -> (word: Vec<u8>)
    ensures
        word@ == word_nx(),
{
    vec![110, 120]
}

/// The bytes of the option `XX`, in lower case.
pub open spec fn word_xx() -> Seq<u8> {
    seq![120u8, 120]
}

/// The bytes of the option `XX`, in lower case.
pub fn lit_xx() -> (word: Vec<u8>)
    ensures
        word@ == word_xx(),
{
    vec![120, 120]
}

/// The bytes of the option `GT`, in lower case.
pub open spec fn word_gt() -> Seq<u8> {
    seq![103u8, 116]
}

/// The bytes of the option `GT`, in lower case.
pub fn lit_gt() -> (word: Vec<u8>)
    ensures
        word@ == word_gt(),
{
    vec![103, 116]
}

/// The bytes of the option `LT`, in lower case.
pub open spec fn word_lt() -> Seq<u8> {
    seq![108u8, 116]
}

/// The bytes of the option `LT`, in lower case.
pub fn lit_lt() -> (word: Vec<u8>)
    ensures
        word@ == word_lt(),
{
    vec![108, 116]
}

/// The bytes of the option `CH`, in lower case.
pub open spec fn word_ch() -> Seq<u8> {
    seq![99u8, 104]
}

/// The bytes of the option `CH`, in lower case.
pub fn lit_ch() -> (word: Vec<u8>)
    ensures
        word@ == word_ch(),
{
    vec![99, 104]
}

/// The bytes of the option `INCR`, in lower case.
pub open spec fn word_incr() -> Seq<u8> {
    seq![105u8, 110, 99, 114]
}

/// The bytes of the option `INCR`, in lower case.
pub fn lit_incr() -> (word: Vec<u8>)
    ensures
        word@ == word_incr(),
{
    vec![105, 110, 99, 114]
}

/// The bytes of the words `Get failed: ` that open the message of a `get` whose answer cannot be read.
pub open spec fn word_get_failed() -> Seq<u8> {
    seq![71u8, 101, 116, 32, 102, 97, 105, 108, 101, 100, 58, 32]
}

/// The bytes of the words `Get failed: ` that open the message of a `get` whose answer cannot be read.
pub fn lit_get_failed() -> (word: Vec<u8>)
    ensures
        word@ == word_get_failed(),
{
    vec![71, 101, 116, 32, 102, 97, 105, 108, 101, 100, 58, 32]
}

} // verus!
