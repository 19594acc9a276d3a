use camera::device::{ControlOutcome, DeviceHandle};
use camera::error::Error;
use camera::format::{
    capabilities_queried, negotiate, negotiated, proposal, query_capabilities, CaptureFormat,
};
use camera::protocol::Action;
use camera::wire::{Capabilities, FieldOrder, PixelEncoding, PixelFormat};

fn report(width: u32, height: u32, pixelformat: u32, field: u32) -> PixelFormat {
    PixelFormat {
        width,
        height,
        pixelformat,
        field,
        bytesperline: 0,
        sizeimage: width * height,
        colorspace: 7,
        private: 0,
    }
}

#[test]
fn proposal_asks_for_motion_jpeg_without_fields() {
    assert_eq!(
        proposal(640, 480),
        PixelFormat {
            width: 640,
            height: 480,
            pixelformat: 0x4750_4a4d,
            field: 1,
            bytesperline: 0,
            sizeimage: 0,
            colorspace: 0,
            private: 0,
        }
    );
}

#[test]
fn negotiate_sends_the_proposal_to_the_device() {
    let handle = DeviceHandle::opened(6).unwrap();
    assert_eq!(
        negotiate(&handle, 1280, 720),
        Action::SetFormat { descriptor: 6, format: proposal(1280, 720) }
    );
    assert_eq!(query_capabilities(&handle), Action::QueryCapabilities { descriptor: 6 });
}

#[test]
fn echo_of_640_by_480_gives_640_by_480_motion_jpeg() {
    let echoed = proposal(640, 480);
    assert_eq!(
        negotiated(ControlOutcome::Done, echoed),
        Ok(CaptureFormat {
            width: 640,
            height: 480,
            pixel_encoding: PixelEncoding::Mjpeg,
            field_order: FieldOrder::Progressive,
        })
    );
}

#[test]
fn a_substituted_format_is_reported_as_it_is() {
    // asked for 640 by 480 in motion JPEG; the device took 320 by 240 in YUYV, interlaced
    let substituted = report(320, 240, 0x5659_5559, 4);
    assert_eq!(
        negotiated(ControlOutcome::Done, substituted),
        Ok(CaptureFormat {
            width: 320,
            height: 240,
            pixel_encoding: PixelEncoding::Other(0x5659_5559),
            field_order: FieldOrder::Interlaced,
        })
    );
}

#[test]
fn extreme_sizes_are_reported_unchanged() {
    let format = negotiated(ControlOutcome::Done, report(0, u32::MAX, 0, 99)).unwrap();
    assert_eq!(format.width, 0);
    assert_eq!(format.height, u32::MAX);
    assert_eq!(format.pixel_encoding.code(), 0);
    assert_eq!(format.field_order, FieldOrder::Other(99));
    assert_eq!(format.field_order.code(), 99);
}

#[test]
fn a_refused_proposal_is_rejected() {
    assert_eq!(
        negotiated(ControlOutcome::Refused { code: 22 }, proposal(640, 480)),
        Err(Error::FormatRejected)
    );
    assert_eq!(negotiated(ControlOutcome::Retry, proposal(640, 480)), Err(Error::FormatRejected));
}

#[test]
fn capture_format_is_read_from_the_record() {
    assert_eq!(
        CaptureFormat::from_wire(report(800, 600, 0x4750_4a4d, 1)),
        CaptureFormat {
            width: 800,
            height: 600,
            pixel_encoding: PixelEncoding::Mjpeg,
            field_order: FieldOrder::Progressive,
        }
    );
}

#[test]
fn capabilities_are_handed_on_or_the_query_has_failed() {
    let mut driver = [0u8; 16];
    driver[0] = b'u';
    driver[1] = b'v';
    driver[2] = b'c';
    let reported = Capabilities {
        driver,
        card: [b'c'; 32],
        bus_info: [b'b'; 32],
        version: 0x0005_0f00,
        capabilities: 0x0420_0001,
    };
    assert_eq!(capabilities_queried(ControlOutcome::Done, reported), Ok(reported));
    assert_eq!(
        capabilities_queried(ControlOutcome::Refused { code: 25 }, reported),
        Err(Error::CapabilityQueryFailed)
    );
    assert_eq!(
        capabilities_queried(ControlOutcome::Retry, reported),
        Err(Error::CapabilityQueryFailed)
    );
}
