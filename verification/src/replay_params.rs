//! Fluent builder for the optional replay parameters: starting position,
//! replay length, file-I/O max length and the bounding counter id. Presence
//! of the bounding counter id selects the bounded-replay message variant.

use vstd::prelude::*;

verus! {

#[derive(Clone, Copy, Debug, PartialEq, Eq, Structural)]
pub struct ReplayParams {
    bounded_limit_counter_id: Option<i32>,
    file_io_max_length: Option<i32>,
    position: Option<i64>,
    length: Option<i64>,
}

impl ReplayParams {
    pub closed spec fn spec_position(&self) -> Option<i64> {
        self.position
    }

    pub closed spec fn spec_length(&self) -> Option<i64> {
        self.length
    }

    pub closed spec fn spec_file_io_max_length(&self) -> Option<i32> {
        self.file_io_max_length
    }

    pub closed spec fn spec_bounded_limit_counter_id(&self) -> Option<i32> {
        self.bounded_limit_counter_id
    }

    /// All parameters absent.
    pub fn new() -> (r: Self)
        ensures
            r.spec_position() is None,
            r.spec_length() is None,
            r.spec_file_io_max_length() is None,
            r.spec_bounded_limit_counter_id() is None,
    {
        ReplayParams {
            bounded_limit_counter_id: None,
            file_io_max_length: None,
            position: None,
            length: None,
        }
    }

    /// Returns the builder with every value back to absent.
    pub fn reset(self) -> (r: Self)
        ensures
            r.spec_position() is None,
            r.spec_length() is None,
            r.spec_file_io_max_length() is None,
            r.spec_bounded_limit_counter_id() is None,
    {
        ReplayParams {
            bounded_limit_counter_id: None,
            file_io_max_length: None,
            position: None,
            length: None,
        }
    }

    pub fn position(self, value: i64) -> (r: Self)
        ensures
            r.spec_position() == Some(value),
            r.spec_length() == self.spec_length(),
            r.spec_file_io_max_length() == self.spec_file_io_max_length(),
            r.spec_bounded_limit_counter_id() == self.spec_bounded_limit_counter_id(),
    {
        ReplayParams { position: Some(value), ..self }
    }

    pub fn length(self, value: i64) -> (r: Self)
        ensures
            r.spec_length() == Some(value),
            r.spec_position() == self.spec_position(),
            r.spec_file_io_max_length() == self.spec_file_io_max_length(),
            r.spec_bounded_limit_counter_id() == self.spec_bounded_limit_counter_id(),
    {
        ReplayParams { length: Some(value), ..self }
    }

    pub fn file_io_max_length(self, value: i32) -> (r: Self)
        ensures
            r.spec_file_io_max_length() == Some(value),
            r.spec_position() == self.spec_position(),
            r.spec_length() == self.spec_length(),
            r.spec_bounded_limit_counter_id() == self.spec_bounded_limit_counter_id(),
    {
        ReplayParams { file_io_max_length: Some(value), ..self }
    }

    pub fn bounded_limit_counter_id(self, value: i32) -> (r: Self)
        ensures
            r.spec_bounded_limit_counter_id() == Some(value),
            r.spec_position() == self.spec_position(),
            r.spec_length() == self.spec_length(),
            r.spec_file_io_max_length() == self.spec_file_io_max_length(),
    {
        ReplayParams { bounded_limit_counter_id: Some(value), ..self }
    }

    pub fn get_position(&self) -> (r: Option<i64>)
        ensures
            r == self.spec_position(),
    {
        self.position
    }

    pub fn get_length(&self) -> (r: Option<i64>)
        ensures
            r == self.spec_length(),
    {
        self.length
    }

    pub fn get_file_io_max_length(&self) -> (r: Option<i32>)
        ensures
            r == self.spec_file_io_max_length(),
    {
        self.file_io_max_length
    }

    pub fn get_bounded_limit_counter_id(&self) -> (r: Option<i32>)
        ensures
            r == self.spec_bounded_limit_counter_id(),
    {
        self.bounded_limit_counter_id
    }

    /// A replay is bounded exactly when a bounding counter id was supplied.
    pub fn is_bounded(&self) -> (r: bool)
        ensures
            r == (self.spec_bounded_limit_counter_id() is Some),
    {
        self.bounded_limit_counter_id.is_some()
    }
}

} // verus!
