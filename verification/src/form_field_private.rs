//! Functionality shared by every form field type: reading the field's name and value from
//! Pdfium, and asking Pdfium whether a checkable field is checked.

use crate::bindgen::{FPDF_ANNOTATION, FPDF_FORMHANDLE};
use crate::bindings::PdfiumLibraryBindings;
use crate::bookmark::create_byte_buffer;
use crate::error::PdfiumError;
use crate::text::{get_string_from_pdfium_utf16le_bytes, spec_pdfium_utf16le_result};
use vstd::prelude::*;

verus! {

/// Crate-level functionality common to all form field objects.
pub trait PdfFormFieldPrivate<'a, B: PdfiumLibraryBindings + 'a> {
    /// The Pdfium handle of the form containing this form field.
    spec fn spec_field_form_handle(&self) -> FPDF_FORMHANDLE;

    /// The Pdfium handle of the annotation wrapping this form field.
    spec fn spec_field_annotation_handle(&self) -> FPDF_ANNOTATION;

    /// The bindings this form field calls through.
    spec fn spec_field_bindings(&self) -> &'a B;

    /// Returns the internal `FPDF_FORMHANDLE` handle for this form field.
    fn form_handle(&self) -> (r: &FPDF_FORMHANDLE)
        ensures
            *r == self.spec_field_form_handle(),
    ;

    /// Returns the internal `FPDF_ANNOTATION` handle for this form field.
    fn annotation_handle(&self) -> (r: &FPDF_ANNOTATION)
        ensures
            *r == self.spec_field_annotation_handle(),
    ;

    /// Returns the [PdfiumLibraryBindings] used by this form field.
    fn bindings(&self) -> (r: &'a B)
        ensures
            r == self.spec_field_bindings(),
    ;

    /// Returns the name of this form field, if it has one.
    ///
    /// Pdfium first reports the length in bytes of the name; a length of zero means the name
    /// is not set. Otherwise Pdfium writes the name in UTF-16LE into a buffer of that length,
    /// which is then decoded; `None` is also returned when the bytes are not valid UTF-16.
    fn name_impl(&self) -> (r: Option<String>)
        ensures
            match r {
                Some(s) => spec_pdfium_utf16le_result(
                    self.spec_field_bindings().spec_field_name(
                        self.spec_field_form_handle(),
                        self.spec_field_annotation_handle(),
                    )@,
                ) == Some(s@),
                None => spec_pdfium_utf16le_result(
                    self.spec_field_bindings().spec_field_name(
                        self.spec_field_form_handle(),
                        self.spec_field_annotation_handle(),
                    )@,
                ) is None,
            },
    {
        let mut no_buffer: Vec<u8> = Vec::new();
        let buffer_length = self.bindings().FPDFAnnot_GetFormFieldName(
            *self.form_handle(),
            *self.annotation_handle(),
            no_buffer.as_mut_slice(),
        );
        if buffer_length == 0 || buffer_length > usize::MAX as u64 {
            // The field name is not present.
            return None;
        }
        let mut buffer = create_byte_buffer(buffer_length as usize);
        let _written = self.bindings().FPDFAnnot_GetFormFieldName(
            *self.form_handle(),
            *self.annotation_handle(),
            buffer.as_mut_slice(),
        );
        assert(buffer@ =~= buffer@.subrange(0, buffer_length as int));
        get_string_from_pdfium_utf16le_bytes(buffer.as_slice())
    }

    /// Returns the value of this form field, if it has one, read in the same two steps as
    /// its name.
    fn value_impl(&self) -> (r: Option<String>)
        ensures
            match r {
                Some(s) => spec_pdfium_utf16le_result(
                    self.spec_field_bindings().spec_field_value(
                        self.spec_field_form_handle(),
                        self.spec_field_annotation_handle(),
                    )@,
                ) == Some(s@),
                None => spec_pdfium_utf16le_result(
                    self.spec_field_bindings().spec_field_value(
                        self.spec_field_form_handle(),
                        self.spec_field_annotation_handle(),
                    )@,
                ) is None,
            },
    {
        let mut no_buffer: Vec<u8> = Vec::new();
        let buffer_length = self.bindings().FPDFAnnot_GetFormFieldValue(
            *self.form_handle(),
            *self.annotation_handle(),
            no_buffer.as_mut_slice(),
        );
        if buffer_length == 0 || buffer_length > usize::MAX as u64 {
            // The field value is not present.
            return None;
        }
        let mut buffer = create_byte_buffer(buffer_length as usize);
        let _written = self.bindings().FPDFAnnot_GetFormFieldValue(
            *self.form_handle(),
            *self.annotation_handle(),
            buffer.as_mut_slice(),
        );
        assert(buffer@ =~= buffer@.subrange(0, buffer_length as int));
        get_string_from_pdfium_utf16le_bytes(buffer.as_slice())
    }

    /// Returns whether Pdfium reports this form field as checked. The query itself never
    /// fails.
    fn is_checked_impl(&self) -> (r: Result<bool, PdfiumError>)
        ensures
            r == Ok::<bool, PdfiumError>(
                self.spec_field_bindings().spec_is_checked(
                    self.spec_field_form_handle(),
                    self.spec_field_annotation_handle(),
                ) != 0,
            ),
    {
        Ok(
            self.bindings().is_true(
                self.bindings().FPDFAnnot_IsChecked(*self.form_handle(), *self.annotation_handle()),
            ),
        )
    }
}

} // verus!
