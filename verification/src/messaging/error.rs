//! The record by which the server reports a failure.

use vstd::prelude::*;
use vstd::string::StringExecFns;
use crate::bytes::Readable;
use crate::bytes::Writeable;
use crate::codec::Codec;
use crate::codec::Reader;
use crate::codec::Writer;
use crate::error::HazelcastClientError;
use crate::error::Violation;
use crate::messaging::Response;

verus! {

/// The message type of a server exception.
pub const EXCEPTION: u16 = 0x6D;

/// What a `StackTraceEntry` holds.
pub struct StackTraceEntryView {
    pub declaring_class: Seq<char>,
    pub method_name: Seq<char>,
    pub file_name: Option<Seq<char>>,
    pub line_number: u32,
}

/// The fields of a `StackTraceEntry`, in the order in which they stand on the
/// wire.
pub type StackTraceEntryFields = (String, String, Option<String>, u32);

impl StackTraceEntryView {
    /// The fields in the order of the wire.
    pub open spec fn fields(self) -> <StackTraceEntryFields as DeepView>::V {
        (self.declaring_class, self.method_name, self.file_name, self.line_number)
    }

    /// The record that the fields make.
    pub open spec fn of(fields: <StackTraceEntryFields as DeepView>::V) -> StackTraceEntryView {
        StackTraceEntryView {
            declaring_class: fields.0,
            method_name: fields.1,
            file_name: fields.2,
            line_number: fields.3,
        }
    }
}

/// One frame of the stack of a server exception.
#[derive(Debug, PartialEq, Eq)]
pub struct StackTraceEntry {
    declaring_class: String,
    method_name: String,
    file_name: Option<String>,
    line_number: u32,
}

impl DeepView for StackTraceEntry {
    type V = StackTraceEntryView;

    closed spec fn deep_view(&self) -> StackTraceEntryView {
        StackTraceEntryView {
            declaring_class: self.declaring_class@,
            method_name: self.method_name@,
            file_name: self.file_name.deep_view(),
            line_number: self.line_number,
        }
    }
}

impl Writer for StackTraceEntry {
    open spec fn wire(value: StackTraceEntryView) -> Seq<u8> {
        StackTraceEntryFields::wire(value.fields())
    }

    open spec fn fits(value: StackTraceEntryView) -> bool {
        StackTraceEntryFields::fits(value.fields())
    }

    fn write_to(&self, writeable: &mut Writeable) -> (result: Result<(), HazelcastClientError>) {
        (
                                &self.declaring_class,
                                &self.method_name,
                                &self.file_name,
                                self.line_number,
                            ).write_to(writeable)
    }
}

impl Reader for StackTraceEntry {
    open spec fn parse(bytes: Seq<u8>) -> Result<(StackTraceEntryView, Seq<u8>), Violation> {
        match StackTraceEntryFields::parse(bytes) {
            Err(violation) => Err(violation),
            Ok((fields, rest)) => Ok((StackTraceEntryView::of(fields), rest)),
        }
    }

    fn read_from(readable: &mut Readable) -> (result: Result<
        StackTraceEntry,
        HazelcastClientError,
    >) {
        let (
            declaring_class,
            method_name,
            file_name,
            line_number,
        ) = StackTraceEntryFields::read_from(readable)?;
        Ok(StackTraceEntry { declaring_class, method_name, file_name, line_number })
    }
}

impl Codec for StackTraceEntry {
    proof fn round_trip(value: StackTraceEntryView, rest: Seq<u8>) {
        StackTraceEntryFields::round_trip(value.fields(), rest);
    }
}

impl StackTraceEntry {
    pub fn new(
        declaring_class: &str,
        method_name: &str,
        file_name: Option<String>,
        line_number: u32,
    ) -> (entry: StackTraceEntry)
        ensures
            entry.deep_view() == (StackTraceEntryView {
                declaring_class: declaring_class@,
                method_name: method_name@,
                file_name: file_name.deep_view(),
                line_number,
            }),
    {
        StackTraceEntry {
            declaring_class: String::from_str(declaring_class),
            method_name: String::from_str(method_name),
            file_name,
            line_number,
        }
    }

    pub fn declaring_class(&self) -> (declaring_class: &str)
        ensures
            declaring_class@ == self.deep_view().declaring_class,
    {
        self.declaring_class.as_str()
    }

    pub fn method_name(&self) -> (method_name: &str)
        ensures
            method_name@ == self.deep_view().method_name,
    {
        self.method_name.as_str()
    }

    pub fn file_name(&self) -> (file_name: &Option<String>)
        ensures
            file_name.deep_view() == self.deep_view().file_name,
    {
        &self.file_name
    }

    pub fn line_number(&self) -> (line_number: u32)
        ensures
            line_number == self.deep_view().line_number,
    {
        self.line_number
    }
}

/// What an `Exception` holds.
pub struct ExceptionView {
    pub code: i32,
    pub class_name: Seq<char>,
    pub message: Option<Seq<char>>,
    pub stack_trace: Seq<StackTraceEntryView>,
    pub cause_error_code: u32,
    pub cause_class_name: Option<Seq<char>>,
}

/// The fields of an `Exception`, in the order in which they stand on the wire.
pub type ExceptionFields = (i32, String, Option<String>, Vec<StackTraceEntry>, u32, Option<String>);

impl ExceptionView {
    /// The fields in the order of the wire.
    pub open spec fn fields(self) -> <ExceptionFields as DeepView>::V {
        (
            self.code,
            self.class_name,
            self.message,
            self.stack_trace,
            self.cause_error_code,
            self.cause_class_name,
        )
    }

    /// The record that the fields make.
    pub open spec fn of(fields: <ExceptionFields as DeepView>::V) -> ExceptionView {
        ExceptionView {
            code: fields.0,
            class_name: fields.1,
            message: fields.2,
            stack_trace: fields.3,
            cause_error_code: fields.4,
            cause_class_name: fields.5,
        }
    }
}

/// What the server sends in place of a response when it could not process a
/// request.
#[derive(Debug, PartialEq, Eq)]
pub struct Exception {
    code: i32,
    class_name: String,
    message: Option<String>,
    stack_trace: Vec<StackTraceEntry>,
    cause_error_code: u32,
    cause_class_name: Option<String>,
}

impl DeepView for Exception {
    type V = ExceptionView;

    closed spec fn deep_view(&self) -> ExceptionView {
        ExceptionView {
            code: self.code,
            class_name: self.class_name@,
            message: self.message.deep_view(),
            stack_trace: self.stack_trace.deep_view(),
            cause_error_code: self.cause_error_code,
            cause_class_name: self.cause_class_name.deep_view(),
        }
    }
}

impl Writer for Exception {
    open spec fn wire(value: ExceptionView) -> Seq<u8> {
        ExceptionFields::wire(value.fields())
    }

    open spec fn fits(value: ExceptionView) -> bool {
        ExceptionFields::fits(value.fields())
    }

    fn write_to(&self, writeable: &mut Writeable) -> (result: Result<(), HazelcastClientError>) {
        (
                                self.code,
                                &self.class_name,
                                &self.message,
                                &self.stack_trace,
                                self.cause_error_code,
                                &self.cause_class_name,
                            ).write_to(writeable)
    }
}

impl Reader for Exception {
    open spec fn parse(bytes: Seq<u8>) -> Result<(ExceptionView, Seq<u8>), Violation> {
        match ExceptionFields::parse(bytes) {
            Err(violation) => Err(violation),
            Ok((fields, rest)) => Ok((ExceptionView::of(fields), rest)),
        }
    }

    fn read_from(readable: &mut Readable) -> (result: Result<Exception, HazelcastClientError>) {
        let (
            code,
            class_name,
            message,
            stack_trace,
            cause_error_code,
            cause_class_name,
        ) = ExceptionFields::read_from(readable)?;
        Ok(Exception { code, class_name, message, stack_trace, cause_error_code, cause_class_name })
    }
}

impl Codec for Exception {
    proof fn round_trip(value: ExceptionView, rest: Seq<u8>) {
        ExceptionFields::round_trip(value.fields(), rest);
    }
}

impl Exception {
    pub fn new(
        code: i32,
        class_name: &str,
        message: Option<String>,
        stack_trace: Vec<StackTraceEntry>,
        cause_error_code: u32,
        cause_class_name: Option<String>,
    ) -> (exception: Exception)
        ensures
            exception.deep_view() == (ExceptionView {
                code,
                class_name: class_name@,
                message: message.deep_view(),
                stack_trace: stack_trace.deep_view(),
                cause_error_code,
                cause_class_name: cause_class_name.deep_view(),
            }),
    {
        Exception {
            code,
            class_name: String::from_str(class_name),
            message,
            stack_trace,
            cause_error_code,
            cause_class_name,
        }
    }

    pub fn code(&self) -> (code: i32)
        ensures
            code == self.deep_view().code,
    {
        self.code
    }

    pub fn class_name(&self) -> (class_name: &str)
        ensures
            class_name@ == self.deep_view().class_name,
    {
        self.class_name.as_str()
    }

    pub fn message(&self) -> (message: &Option<String>)
        ensures
            message.deep_view() == self.deep_view().message,
    {
        &self.message
    }

    pub fn stack_trace(&self) -> (stack_trace: &Vec<StackTraceEntry>)
        ensures
            stack_trace.deep_view() == self.deep_view().stack_trace,
    {
        &self.stack_trace
    }

    pub fn cause_error_code(&self) -> (cause_error_code: u32)
        ensures
            cause_error_code == self.deep_view().cause_error_code,
    {
        self.cause_error_code
    }

    pub fn cause_class_name(&self) -> (cause_class_name: &Option<String>)
        ensures
            cause_class_name.deep_view() == self.deep_view().cause_class_name,
    {
        &self.cause_class_name
    }
}

impl Response for Exception {
    open spec fn type_id() -> u16 {
        EXCEPTION
    }

    fn message_type() -> (message_type: u16) {
        EXCEPTION
    }
}

} // verus!
