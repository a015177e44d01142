# uic_ticket

A verified reader for UIC rail ticket barcodes, written in Verus.

- `helpers`: the fixed-width text and number fields of the TLB format
  (padding, white space, decimal numbers) and the edition time field.
- `tlb`, `tlb_records`, `flex`, `pretix`: the TLB (`#UT`) container, its
  zlib-compressed payload and the records in it (`U_HEAD`, `U_TLAY`,
  `U_FLEX`, `5101PX`, others kept as they stand).
- `dosipas`: the ticket made of a decoded DOSIPAS barcode header (versions 1
  and 2), with its end of validity and data records.
- `sig`: issuer keys (DSA, ECDSA P-256, Ed25519, loaded from PEM) and the
  checking of TLB and DOSIPAS signatures.
- `lib`: the error type and the barcode-level `Ticket::parse`.

Every reading is stated as a specification over the input bytes, and the
executable code is proved to follow it. The calls into zlib, chrono, the
PEM/SPKI decoders, the DER encoder and the signature libraries are the
trusted boundary: each is a small wrapper whose contract names or states
what the library returns.

The UPER decoding of DOSIPAS headers and of the ASN.1 record payloads is not
part of this crate: `Ticket::parse` takes the decoded headers as arguments,
and FCB, pretix and dynamic content records keep their encoded bytes.
