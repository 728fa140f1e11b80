use vstd::prelude::*;

verus! {

/// The native initialization options object. Each handle type stands for one role, so a
/// handle of one role cannot be passed where another is expected; none of them is `Copy`
/// or `Clone`, and releasing one consumes it. Handles are made by a binding from the raw
/// values the native layer hands out.
#[derive(Debug)]
pub struct InitOptionsHandle(usize);

/// The native pipeline that holds the loaded model.
#[derive(Debug)]
pub struct PipelineHandle(usize);

/// The native per-run process options.
#[derive(Debug)]
pub struct ProcessOptionsHandle(usize);

/// The native result of one run.
#[derive(Debug)]
pub struct ResultHandle(usize);

/// A line of a native result; freed together with its result.
#[derive(Debug)]
pub struct LineHandle(usize);

/// A word of a native line; freed together with its result.
#[derive(Debug)]
pub struct WordHandle(usize);

impl InitOptionsHandle {
    /// The raw value the native layer knows this object by.
    pub closed spec fn id(&self) -> usize {
        self.0
    }

    /// Wraps a raw value that the native layer handed out; for bindings.
    pub fn from_raw(raw: usize) -> (r: Self)
        ensures
            r.id() == raw,
    {
        InitOptionsHandle(raw)
    }

    /// The raw value to pass to the native layer; for bindings.
    pub fn raw(&self) -> (r: usize)
        ensures
            r == self.id(),
    {
        self.0
    }
}

impl PipelineHandle {
    /// The raw value the native layer knows this object by.
    pub closed spec fn id(&self) -> usize {
        self.0
    }

    /// Wraps a raw value that the native layer handed out; for bindings.
    pub fn from_raw(raw: usize) -> (r: Self)
        ensures
            r.id() == raw,
    {
        PipelineHandle(raw)
    }

    /// The raw value to pass to the native layer; for bindings.
    pub fn raw(&self) -> (r: usize)
        ensures
            r == self.id(),
    {
        self.0
    }
}

impl ProcessOptionsHandle {
    /// The raw value the native layer knows this object by.
    pub closed spec fn id(&self) -> usize {
        self.0
    }

    /// Wraps a raw value that the native layer handed out; for bindings.
    pub fn from_raw(raw: usize) -> (r: Self)
        ensures
            r.id() == raw,
    {
        ProcessOptionsHandle(raw)
    }

    /// The raw value to pass to the native layer; for bindings.
    pub fn raw(&self) -> (r: usize)
        ensures
            r == self.id(),
    {
        self.0
    }
}

impl ResultHandle {
    /// The raw value the native layer knows this object by.
    pub closed spec fn id(&self) -> usize {
        self.0
    }

    /// Wraps a raw value that the native layer handed out; for bindings.
    pub fn from_raw(raw: usize) -> (r: Self)
        ensures
            r.id() == raw,
    {
        ResultHandle(raw)
    }

    /// The raw value to pass to the native layer; for bindings.
    pub fn raw(&self) -> (r: usize)
        ensures
            r == self.id(),
    {
        self.0
    }
}

impl LineHandle {
    /// The raw value the native layer knows this object by.
    pub closed spec fn id(&self) -> usize {
        self.0
    }

    /// Wraps a raw value that the native layer handed out; for bindings.
    pub fn from_raw(raw: usize) -> (r: Self)
        ensures
            r.id() == raw,
    {
        LineHandle(raw)
    }

    /// The raw value to pass to the native layer; for bindings.
    pub fn raw(&self) -> (r: usize)
        ensures
            r == self.id(),
    {
        self.0
    }
}

impl WordHandle {
    /// The raw value the native layer knows this object by.
    pub closed spec fn id(&self) -> usize {
        self.0
    }

    /// Wraps a raw value that the native layer handed out; for bindings.
    pub fn from_raw(raw: usize) -> (r: Self)
        ensures
            r.id() == raw,
    {
        WordHandle(raw)
    }

    /// The raw value to pass to the native layer; for bindings.
    pub fn raw(&self) -> (r: usize)
        ensures
            r == self.id(),
    {
        self.0
    }
}

} // verus!
