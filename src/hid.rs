use vstd::prelude::*;
use vstd::string::StringSliceAdditionalSpecFns;
use crate::ble_uuid::BleUuid;
use crate::characteristic::{
    PROP_NOTIFY, PROP_READ, PROP_READ_ENC, PROP_WRITE, PROP_WRITE_ENC, PROP_WRITE_NO_RSP,
};
use crate::descriptor::{DSC_PROP_READ, DSC_PROP_READ_ENC, DSC_PROP_WRITE, DSC_PROP_WRITE_ENC};
use crate::presentation::{BLE2904Format, BLE2904};
use crate::server::BLEServer;

verus! {

/// Characteristic `idx` of the server belongs to service `svc` and has this UUID and these
/// properties.
pub open spec fn chr_is(s: &BLEServer, idx: usize, svc: usize, uuid: u16, props: u16) -> bool {
    &&& idx < s.spec_characteristics().len()
    &&& s.spec_char_service()[idx as int] == svc
    &&& s.spec_characteristics()[idx as int].spec_uuid() == BleUuid::Uuid16(uuid)
    &&& s.spec_characteristics()[idx as int].spec_properties() == props
}

/// Service `idx` of the server has this UUID.
pub open spec fn svc_is(s: &BLEServer, idx: usize, uuid: u16) -> bool {
    idx < s.spec_services().len() && s.spec_services()[idx as int].uuid == BleUuid::Uuid16(uuid)
}

/// The services and characteristics of a HID device (device information, HID and
/// battery), as indices into the server's database.
#[derive(Clone, Copy, Debug)]
pub struct BLEHIDDevice {
    pub device_info_service: usize,
    pub pnp_characteristic: usize,
    pub manufacturer_characteristic: Option<usize>,
    pub hid_service: usize,
    pub hid_info_characteristic: usize,
    pub report_map_characteristic: usize,
    pub hid_control_characteristic: usize,
    pub protocol_mode_characteristic: usize,
    pub battery_service: usize,
    pub battery_level_characteristic: usize,
    pub battery_level_descriptor: usize,
}

/// The server keeps what it had: every earlier service, characteristic (with its service)
/// and descriptor is unchanged.
pub open spec fn extends(new: &BLEServer, old: &BLEServer) -> bool {
    &&& old.spec_services().len() <= new.spec_services().len()
    &&& forall|i: int| 0 <= i < old.spec_services().len() ==> #[trigger] new.spec_services()[i] == old.spec_services()[i]
    &&& old.spec_characteristics().len() <= new.spec_characteristics().len()
    &&& forall|i: int|
        0 <= i < old.spec_characteristics().len() ==> #[trigger] new.spec_characteristics()[i]
            == old.spec_characteristics()[i]
    &&& forall|i: int|
        0 <= i < old.spec_characteristics().len() ==> #[trigger] new.spec_char_service()[i]
            == old.spec_char_service()[i]
}

fn add_service(server: &mut BLEServer, uuid: u16) -> (r: usize)
    requires
        old(server).wf(),
    ensures
        final(server).wf(),
        extends(final(server), old(server)),
        svc_is(final(server), r, uuid),
        r == old(server).spec_services().len(),
        final(server).spec_characteristics() == old(server).spec_characteristics(),
        final(server).spec_char_service() == old(server).spec_char_service(),
        final(server).spec_descriptors() == old(server).spec_descriptors(),
        final(server).spec_desc_owner() == old(server).spec_desc_owner(),
{
    let r = server.create_service(BleUuid::Uuid16(uuid));
    r
}

fn add_characteristic(server: &mut BLEServer, svc: usize, uuid: u16, props: u16) -> (r: usize)
    requires
        old(server).wf(),
        svc < old(server).spec_services().len(),
    ensures
        final(server).wf(),
        extends(final(server), old(server)),
        chr_is(final(server), r, svc, uuid, props),
        r == old(server).spec_characteristics().len(),
        final(server).spec_services() == old(server).spec_services(),
        final(server).spec_characteristics().len() == old(server).spec_characteristics().len() + 1,
        final(server).spec_descriptors() == old(server).spec_descriptors(),
        final(server).spec_desc_owner() == old(server).spec_desc_owner(),
{
    match server.create_characteristic(svc, BleUuid::Uuid16(uuid), props) {
        Some(i) => {
            proof {
                let o = old(server).spec_characteristics();
                let n = final(server).spec_characteristics();
                assert forall|k: int| 0 <= k < o.len() implies #[trigger] n[k] == o[k] by {
                    assert(n.drop_last()[k] == n[k]);
                }
                assert forall|k: int| 0 <= k < o.len() implies #[trigger] final(server).spec_char_service()[k] == old(server).spec_char_service()[k] by {
                    assert(final(server).spec_char_service() == old(server).spec_char_service().push(svc));
                }
                assert(final(server).spec_char_service()[i as int] == svc);
            }
            i
        },
        None => {
            proof {
                assert(false);
            }
            0
        },
    }
}

impl BLEHIDDevice {
    /// The layout that `new` creates.
    pub open spec fn layout(&self, s: &BLEServer) -> bool {
        &&& svc_is(s, self.device_info_service, 0x180a)
        &&& svc_is(s, self.hid_service, 0x1812)
        &&& svc_is(s, self.battery_service, 0x180f)
        &&& chr_is(s, self.pnp_characteristic, self.device_info_service, 0x2a50, PROP_READ)
        &&& chr_is(s, self.hid_info_characteristic, self.hid_service, 0x2a4a, PROP_READ)
        &&& chr_is(s, self.report_map_characteristic, self.hid_service, 0x2a4b, PROP_READ)
        &&& chr_is(
            s,
            self.hid_control_characteristic,
            self.hid_service,
            0x2a4c,
            PROP_WRITE_NO_RSP,
        )
        &&& chr_is(
            s,
            self.protocol_mode_characteristic,
            self.hid_service,
            0x2a4e,
            PROP_WRITE_NO_RSP | PROP_READ,
        )
        &&& chr_is(
            s,
            self.battery_level_characteristic,
            self.battery_service,
            0x2a19,
            PROP_READ | PROP_NOTIFY,
        )
        &&& self.battery_level_descriptor < s.spec_descriptors().len()
        &&& s.spec_desc_owner()[self.battery_level_descriptor as int]
            == self.battery_level_characteristic
        &&& s.spec_descriptors()[self.battery_level_descriptor as int].spec_uuid() == BleUuid::Uuid16(
            0x2904,
        )
    }

    /// Creates the device information service (with the PnP characteristic), the HID
    /// service (information, report map, control point, protocol mode) and the battery
    /// service (level, with its presentation format: unsigned 8-bit percentage).
    pub fn new(server: &mut BLEServer) -> (r: BLEHIDDevice)
        requires
            old(server).wf(),
        ensures
            final(server).wf(),
            extends(final(server), old(server)),
            r.layout(final(server)),
            r.manufacturer_characteristic is None,
    {
        let device_info_service = add_service(server, 0x180a);
        let pnp_characteristic = add_characteristic(server, device_info_service, 0x2a50, PROP_READ);
        let hid_service = add_service(server, 0x1812);
        let hid_info_characteristic = add_characteristic(server, hid_service, 0x2a4a, PROP_READ);
        let report_map_characteristic = add_characteristic(server, hid_service, 0x2a4b, PROP_READ);
        let hid_control_characteristic = add_characteristic(
            server,
            hid_service,
            0x2a4c,
            PROP_WRITE_NO_RSP,
        );
        let protocol_mode_characteristic = add_characteristic(
            server,
            hid_service,
            0x2a4e,
            PROP_WRITE_NO_RSP | PROP_READ,
        );
        let battery_service = add_service(server, 0x180f);
        let battery_level_characteristic = add_characteristic(
            server,
            battery_service,
            0x2a19,
            PROP_READ | PROP_NOTIFY,
        );
        let ghost before_desc = *server;
        let battery_level_descriptor = match server.create_descriptor(
            battery_level_characteristic,
            BleUuid::Uuid16(0x2904),
            DSC_PROP_READ,
        ) {
            Some(d) => d,
            None => {
                proof {
                    assert(false);
                }
                0
            },
        };
        let mut fmt = BLE2904::new();
        fmt.format(BLE2904Format::UINT8);
        fmt.namespace(1);
        fmt.unit(0x27ad);
        let bytes = fmt.as_bytes();
        let ghost before_value = *server;
        server.set_descriptor_value(battery_level_descriptor, bytes.as_slice());
        let r = BLEHIDDevice {
            device_info_service,
            pnp_characteristic,
            manufacturer_characteristic: None,
            hid_service,
            hid_info_characteristic,
            report_map_characteristic,
            hid_control_characteristic,
            protocol_mode_characteristic,
            battery_service,
            battery_level_characteristic,
            battery_level_descriptor,
        };
        proof {
            assert(final(server).spec_descriptors()[battery_level_descriptor as int].spec_uuid()
                == before_value.spec_descriptors()[battery_level_descriptor as int].spec_uuid());
            assert(before_value.spec_descriptors().last() == before_value.spec_descriptors()[
                battery_level_descriptor as int]);
            assert(before_value.spec_desc_owner() == before_desc.spec_desc_owner().push(
                battery_level_characteristic,
            ));
        }
        r
    }

    /// Sets the report map.
    pub fn report_map(&self, server: &mut BLEServer, map: &[u8])
        requires
            old(server).wf(),
            self.layout(old(server)),
        ensures
            final(server).wf(),
            self.layout(final(server)),
            final(server).spec_characteristics()[self.report_map_characteristic as int].spec_value()
                == map@,
    {
        server.set_characteristic_value(self.report_map_characteristic, map);
        proof {
            self.lemma_layout_kept(*old(server), *final(server), self.report_map_characteristic);
        }
    }

    /// Sets the HID information: version 1.11, country code and flags.
    pub fn hid_info(&self, server: &mut BLEServer, country: u8, flags: u8)
        requires
            old(server).wf(),
            self.layout(old(server)),
        ensures
            final(server).wf(),
            self.layout(final(server)),
            final(server).spec_characteristics()[self.hid_info_characteristic as int].spec_value()
                == seq![0x11u8, 0x01u8, country, flags],
    {
        let info: [u8; 4] = [0x11, 0x01, country, flags];
        server.set_characteristic_value(self.hid_info_characteristic, info.as_slice());
        proof {
            assert(info@ =~= seq![0x11u8, 0x01u8, country, flags]);
            self.lemma_layout_kept(*old(server), *final(server), self.hid_info_characteristic);
        }
    }

    /// Sets the PnP identifier: vendor id source, then vendor, product and version, each
    /// most significant byte first.
    pub fn pnp(&self, server: &mut BLEServer, sig: u8, vid: u16, pid: u16, version: u16)
        requires
            old(server).wf(),
            self.layout(old(server)),
        ensures
            final(server).wf(),
            self.layout(final(server)),
            final(server).spec_characteristics()[self.pnp_characteristic as int].spec_value() == seq![
                sig,
                (vid / 256) as u8,
                (vid % 256) as u8,
                (pid / 256) as u8,
                (pid % 256) as u8,
                (version / 256) as u8,
                (version % 256) as u8,
            ],
    {
        let v: [u8; 7] = [
            sig,
            (vid / 256) as u8,
            (vid % 256) as u8,
            (pid / 256) as u8,
            (pid % 256) as u8,
            (version / 256) as u8,
            (version % 256) as u8,
        ];
        server.set_characteristic_value(self.pnp_characteristic, v.as_slice());
        proof {
            assert(v@ =~= seq![
                sig,
                (vid / 256) as u8,
                (vid % 256) as u8,
                (pid / 256) as u8,
                (pid % 256) as u8,
                (version / 256) as u8,
                (version % 256) as u8,
            ]);
            self.lemma_layout_kept(*old(server), *final(server), self.pnp_characteristic);
        }
    }

    /// Sets the battery level.
    pub fn set_battery_level(&self, server: &mut BLEServer, level: u8)
        requires
            old(server).wf(),
            self.layout(old(server)),
        ensures
            final(server).wf(),
            self.layout(final(server)),
            final(server).spec_characteristics()[self.battery_level_characteristic as int].spec_value()
                == seq![level],
    {
        let v: [u8; 1] = [level];
        server.set_characteristic_value(self.battery_level_characteristic, v.as_slice());
        proof {
            assert(v@ =~= seq![level]);
            self.lemma_layout_kept(*old(server), *final(server), self.battery_level_characteristic);
        }
    }

    /// Adds a report characteristic of kind `kind` with its report reference descriptor
    /// (`[report_id, kind]`); returns the characteristic's index.
    fn add_report(&self, server: &mut BLEServer, report_id: u8, kind: u8) -> (r: usize)
        requires
            old(server).wf(),
            self.layout(old(server)),
        ensures
            final(server).wf(),
            extends(final(server), old(server)),
            self.layout(final(server)),
            chr_is(final(server), r, self.hid_service, 0x2a4d, report_props(kind).0),
            final(server).spec_descriptors().len() == old(server).spec_descriptors().len() + 1,
            final(server).spec_desc_owner().last() == r,
            final(server).spec_descriptors().last().spec_uuid() == BleUuid::Uuid16(0x2908),
            final(server).spec_descriptors().last().spec_properties() == report_props(kind).1,
            final(server).spec_descriptors().last().spec_value() == seq![report_id, kind],
    {
        let (cprops, dprops): (u16, u8) = if kind == REPORT_TYPE_INPUT {
            (PROP_READ | PROP_NOTIFY | PROP_READ_ENC, DSC_PROP_READ | DSC_PROP_READ_ENC)
        } else if kind == REPORT_TYPE_OUTPUT {
            (
                PROP_READ | PROP_WRITE | PROP_WRITE_NO_RSP | PROP_READ_ENC | PROP_WRITE_ENC,
                DSC_PROP_READ | DSC_PROP_WRITE | DSC_PROP_READ_ENC | DSC_PROP_WRITE_ENC,
            )
        } else {
            (
                PROP_READ | PROP_WRITE | PROP_READ_ENC | PROP_WRITE_ENC,
                DSC_PROP_READ | DSC_PROP_WRITE | DSC_PROP_READ_ENC | DSC_PROP_WRITE_ENC,
            )
        };
        let ghost s0 = *server;
        let c = add_characteristic(server, self.hid_service, 0x2a4d, cprops);
        let ghost s1 = *server;
        proof {
            self.lemma_layout_extended(s0, s1);
        }
        let d = match server.create_descriptor(c, BleUuid::Uuid16(0x2908), dprops) {
            Some(d) => d,
            None => {
                proof {
                    assert(false);
                }
                0
            },
        };
        let ghost s2 = *server;
        let v: [u8; 2] = [report_id, kind];
        server.set_descriptor_value(d, v.as_slice());
        proof {
            assert(v@ =~= seq![report_id, kind]);
            assert(s2.spec_desc_owner() == s1.spec_desc_owner().push(c));
            assert(s2.spec_descriptors().last() == s2.spec_descriptors()[d as int]);
            assert(final(server).spec_descriptors().last() == final(server).spec_descriptors()[d as int]);
            assert(s2.spec_desc_owner()[self.battery_level_descriptor as int] == s1.spec_desc_owner()[self.battery_level_descriptor as int]);
            assert(s2.spec_descriptors()[self.battery_level_descriptor as int] == s1.spec_descriptors()[
                self.battery_level_descriptor as int]) by {
                assert(s2.spec_descriptors().drop_last()[self.battery_level_descriptor as int]
                    == s2.spec_descriptors()[self.battery_level_descriptor as int]);
            }
        }
        c
    }

    /// Adds an input report characteristic; returns its index.
    pub fn input_report(&self, server: &mut BLEServer, report_id: u8) -> (r: usize)
        requires
            old(server).wf(),
            self.layout(old(server)),
        ensures
            final(server).wf(),
            extends(final(server), old(server)),
            self.layout(final(server)),
            chr_is(final(server), r, self.hid_service, 0x2a4d, report_props(REPORT_TYPE_INPUT).0),
            final(server).spec_desc_owner().last() == r,
            final(server).spec_descriptors().last().spec_value() == seq![report_id, REPORT_TYPE_INPUT],
    {
        self.add_report(server, report_id, REPORT_TYPE_INPUT)
    }

    /// Adds an output report characteristic; returns its index.
    pub fn output_report(&self, server: &mut BLEServer, report_id: u8) -> (r: usize)
        requires
            old(server).wf(),
            self.layout(old(server)),
        ensures
            final(server).wf(),
            extends(final(server), old(server)),
            self.layout(final(server)),
            chr_is(final(server), r, self.hid_service, 0x2a4d, report_props(REPORT_TYPE_OUTPUT).0),
            final(server).spec_desc_owner().last() == r,
            final(server).spec_descriptors().last().spec_value() == seq![report_id, REPORT_TYPE_OUTPUT],
    {
        self.add_report(server, report_id, REPORT_TYPE_OUTPUT)
    }

    /// Adds a feature report characteristic; returns its index.
    pub fn feature_report(&self, server: &mut BLEServer, report_id: u8) -> (r: usize)
        requires
            old(server).wf(),
            self.layout(old(server)),
        ensures
            final(server).wf(),
            extends(final(server), old(server)),
            self.layout(final(server)),
            chr_is(final(server), r, self.hid_service, 0x2a4d, report_props(REPORT_TYPE_FEATURE).0),
            final(server).spec_desc_owner().last() == r,
            final(server).spec_descriptors().last().spec_value() == seq![report_id, REPORT_TYPE_FEATURE],
    {
        self.add_report(server, report_id, REPORT_TYPE_FEATURE)
    }

    /// Adds the keyboard boot input report characteristic; returns its index.
    pub fn boot_input(&self, server: &mut BLEServer) -> (r: usize)
        requires
            old(server).wf(),
            self.layout(old(server)),
        ensures
            final(server).wf(),
            extends(final(server), old(server)),
            self.layout(final(server)),
            chr_is(final(server), r, self.hid_service, 0x2a22, PROP_NOTIFY),
    {
        let ghost s0 = *server;
        let r = add_characteristic(server, self.hid_service, 0x2a22, PROP_NOTIFY);
        proof {
            self.lemma_layout_extended(s0, *server);
        }
        r
    }

    /// Adds the keyboard boot output report characteristic; returns its index.
    pub fn boot_output(&self, server: &mut BLEServer) -> (r: usize)
        requires
            old(server).wf(),
            self.layout(old(server)),
        ensures
            final(server).wf(),
            extends(final(server), old(server)),
            self.layout(final(server)),
            chr_is(final(server), r, self.hid_service, 0x2a32, PROP_READ | PROP_WRITE | PROP_WRITE_NO_RSP),
    {
        let ghost s0 = *server;
        let r = add_characteristic(
            server,
            self.hid_service,
            0x2a32,
            PROP_READ | PROP_WRITE | PROP_WRITE_NO_RSP,
        );
        proof {
            self.lemma_layout_extended(s0, *server);
        }
        r
    }

    /// Sets the manufacturer name, adding its characteristic to the device information
    /// service the first time.
    pub fn manufacturer(&mut self, server: &mut BLEServer, name: &str)
        requires
            old(server).wf(),
            old(self).layout(old(server)),
            old(self).manufacturer_characteristic matches Some(m) ==> chr_is(
                old(server),
                m,
                old(self).device_info_service,
                0x2a29,
                PROP_READ,
            ),
        ensures
            final(server).wf(),
            final(self).layout(final(server)),
            final(self).manufacturer_characteristic is Some,
            chr_is(
                final(server),
                final(self).manufacturer_characteristic->0,
                final(self).device_info_service,
                0x2a29,
                PROP_READ,
            ),
            final(server).spec_characteristics()[final(self).manufacturer_characteristic->0 as int].spec_value()
                == name.spec_bytes(),
    {
        let m = match self.manufacturer_characteristic {
            Some(m) => m,
            None => {
                let ghost s0 = *server;
                let m = add_characteristic(server, self.device_info_service, 0x2a29, PROP_READ);
                proof {
                    self.lemma_layout_extended(s0, *server);
                }
                self.manufacturer_characteristic = Some(m);
                m
            },
        };
        let ghost s1 = *server;
        server.set_characteristic_value(m, name.as_bytes());
        proof {
            self.lemma_layout_kept(s1, *server, m);
        }
    }

    proof fn lemma_layout_extended(&self, a: BLEServer, b: BLEServer)
        requires
            self.layout(&a),
            extends(&b, &a),
            b.spec_descriptors() == a.spec_descriptors(),
            b.spec_desc_owner() == a.spec_desc_owner(),
        ensures
            self.layout(&b),
    {
    }

    proof fn lemma_layout_kept(&self, a: BLEServer, b: BLEServer, idx: usize)
        requires
            self.layout(&a),
            idx < a.spec_characteristics().len(),
            b.spec_characteristics().len() == a.spec_characteristics().len(),
            forall|j: int|
                0 <= j < a.spec_characteristics().len() && j != idx ==> #[trigger] b.spec_characteristics()[j]
                    == a.spec_characteristics()[j],
            b.spec_characteristics()[idx as int].spec_uuid() == a.spec_characteristics()[idx as int].spec_uuid(),
            b.spec_characteristics()[idx as int].spec_properties() == a.spec_characteristics()[idx as int].spec_properties(),
            b.spec_services() == a.spec_services(),
            b.spec_char_service() == a.spec_char_service(),
            b.spec_descriptors() == a.spec_descriptors(),
            b.spec_desc_owner() == a.spec_desc_owner(),
        ensures
            self.layout(&b),
    {
    }
}

/// Report kinds of a report reference descriptor.
pub const REPORT_TYPE_INPUT: u8 = 0x01;
/// Report kinds of a report reference descriptor: output.
pub const REPORT_TYPE_OUTPUT: u8 = 0x02;
/// Report kinds of a report reference descriptor: feature.
pub const REPORT_TYPE_FEATURE: u8 = 0x03;

/// The report characteristic properties and report reference descriptor properties of each
/// report kind.
pub open spec fn report_props(kind: u8) -> (u16, u8) {
    if kind == REPORT_TYPE_INPUT {
        (PROP_READ | PROP_NOTIFY | PROP_READ_ENC, DSC_PROP_READ | DSC_PROP_READ_ENC)
    } else if kind == REPORT_TYPE_OUTPUT {
        (
            PROP_READ | PROP_WRITE | PROP_WRITE_NO_RSP | PROP_READ_ENC | PROP_WRITE_ENC,
            DSC_PROP_READ | DSC_PROP_WRITE | DSC_PROP_READ_ENC | DSC_PROP_WRITE_ENC,
        )
    } else {
        (
            PROP_READ | PROP_WRITE | PROP_READ_ENC | PROP_WRITE_ENC,
            DSC_PROP_READ | DSC_PROP_WRITE | DSC_PROP_READ_ENC | DSC_PROP_WRITE_ENC,
        )
    }
}

} // verus!
