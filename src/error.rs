use vstd::prelude::*;

verus! {

/// An error that occurred while starting an application.
#[derive(Debug, Clone, Copy, PartialEq, Eq, Structural)]
pub enum Error {
    /// The futures executor could not be created.
    ExecutorCreationFailed,
    /// The application window could not be created.
    WindowCreationFailed,
    /// The application graphics context could not be created.
    GraphicsCreationFailed,
    /// The connection to the wayland server could not be created.
    ConnectionCreationFailed,
}

impl Error {
    /// What went wrong, in words.
    pub fn message(&self) -> (r: &'static str)
        ensures
            r@ == match self {
                Error::ExecutorCreationFailed => "the futures executor could not be created"@,
                Error::WindowCreationFailed => "the application window could not be created"@,
                Error::GraphicsCreationFailed => "the application graphics context could not be created"@,
                Error::ConnectionCreationFailed => "the connection to the wayland server could not be created"@,
            },
    {
        match self {
            Error::ExecutorCreationFailed => "the futures executor could not be created",
            Error::WindowCreationFailed => "the application window could not be created",
            Error::GraphicsCreationFailed => "the application graphics context could not be created",
            Error::ConnectionCreationFailed => "the connection to the wayland server could not be created",
        }
    }
}

} // verus!
