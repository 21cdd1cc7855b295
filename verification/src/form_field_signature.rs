//! Defines the [PdfFormSignatureField] struct, exposing functionality related to a single
//! form field of type `PdfFormFieldType::Signature`.

use crate::bindgen::{FPDF_ANNOTATION, FPDF_FORMHANDLE};
use crate::bindings::PdfiumLibraryBindings;
use crate::form_field_private::PdfFormFieldPrivate;
use vstd::prelude::*;

verus! {

/// A single `PdfFormField` of type `PdfFormFieldType::Signature`. The form field object defines
/// a digital signature widget.
///
/// Form fields in Pdfium are wrapped inside page annotations of type `PdfPageAnnotationType::Widget`
/// or `PdfPageAnnotationType::XfaWidget`.
pub struct PdfFormSignatureField<'a, B: PdfiumLibraryBindings> {
    form_handle: FPDF_FORMHANDLE,
    annotation_handle: FPDF_ANNOTATION,
    bindings: &'a B,
}

impl<'a, B: PdfiumLibraryBindings> PdfFormSignatureField<'a, B> {
    /// The Pdfium handle of the form containing this field.
    pub closed spec fn spec_form_handle(&self) -> FPDF_FORMHANDLE {
        self.form_handle
    }

    /// The Pdfium handle of the annotation wrapping this field.
    pub closed spec fn spec_annotation_handle(&self) -> FPDF_ANNOTATION {
        self.annotation_handle
    }

    /// The bindings this field calls through.
    pub closed spec fn spec_bindings(&self) -> &'a B {
        self.bindings
    }

    pub fn from_pdfium(
        form_handle: FPDF_FORMHANDLE,
        annotation_handle: FPDF_ANNOTATION,
        bindings: &'a B,
    ) -> (r: Self)
        ensures
            r.spec_form_handle() == form_handle,
            r.spec_annotation_handle() == annotation_handle,
            r.spec_bindings() == bindings,
    {
        PdfFormSignatureField { form_handle, annotation_handle, bindings }
    }

    /// Returns the internal `FPDF_FORMHANDLE` handle for this field.
    pub fn form_handle(&self) -> (r: &FPDF_FORMHANDLE)
        ensures
            *r == self.spec_form_handle(),
    {
        &self.form_handle
    }

    /// Returns the internal `FPDF_ANNOTATION` handle for this field.
    pub fn annotation_handle(&self) -> (r: &FPDF_ANNOTATION)
        ensures
            *r == self.spec_annotation_handle(),
    {
        &self.annotation_handle
    }

    /// Returns the [PdfiumLibraryBindings] used by this [PdfFormSignatureField] object.
    pub fn bindings(&self) -> (r: &'a B)
        ensures
            r == self.spec_bindings(),
    {
        self.bindings
    }
}

impl<'a, B: PdfiumLibraryBindings> PdfFormFieldPrivate<'a, B> for PdfFormSignatureField<'a, B> {
    closed spec fn spec_field_form_handle(&self) -> FPDF_FORMHANDLE {
        self.form_handle
    }

    closed spec fn spec_field_annotation_handle(&self) -> FPDF_ANNOTATION {
        self.annotation_handle
    }

    closed spec fn spec_field_bindings(&self) -> &'a B {
        self.bindings
    }

    fn form_handle(&self) -> &FPDF_FORMHANDLE {
        assert(self.spec_field_form_handle() == self.form_handle);
        &self.form_handle
    }

    fn annotation_handle(&self) -> &FPDF_ANNOTATION {
        assert(self.spec_field_annotation_handle() == self.annotation_handle);
        &self.annotation_handle
    }

    fn bindings(&self) -> &'a B {
        assert(self.spec_field_bindings() == self.bindings);
        self.bindings
    }
}

} // verus!
