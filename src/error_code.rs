//! The venue's error codes, carried through unchanged.

use vstd::prelude::*;

verus! {

/// An error code of the venue, as named on the wire.
#[derive(Clone, Copy, Debug, PartialEq, Eq, Structural)]
pub enum XtbErrorCode {
    BE001,
    BE002,
    BE003,
    BE004,
    BE005,
    BE006,
    BE007,
    BE008,
    BE009,
    BE010,
    BE011,
    BE012,
    BE013,
    BE014,
    BE016,
    BE017,
    BE018,
    BE019,
    BE020,
    BE021,
    BE022,
    BE023,
    BE024,
    BE025,
    BE026,
    BE027,
    BE028,
    BE029,
    BE030,
    BE031,
    BE032,
    BE033,
    BE034,
    BE035,
    BE036,
    BE037,
    BE099,
    BE094,
    BE095,
    BE096,
    BE097,
    BE098,
    BE101,
    BE102,
    BE103,
    BE104,
    BE105,
    BE106,
    BE110,
    BE115,
    BE116,
    BE117,
    BE118,
    BE200,
    EX000,
    EX001,
    EX002,
    BE000,
    EX003,
    EX004,
    EX005,
    EX006,
    EX007,
    EX008,
    EX009,
    EX010,
    EX011,
}

/// The wire name of a code.
pub open spec fn code_name(c: XtbErrorCode) -> Seq<char> {
    match c {
        XtbErrorCode::BE001 => seq!['B', 'E', '0', '0', '1'],
        XtbErrorCode::BE002 => seq!['B', 'E', '0', '0', '2'],
        XtbErrorCode::BE003 => seq!['B', 'E', '0', '0', '3'],
        XtbErrorCode::BE004 => seq!['B', 'E', '0', '0', '4'],
        XtbErrorCode::BE005 => seq!['B', 'E', '0', '0', '5'],
        XtbErrorCode::BE006 => seq!['B', 'E', '0', '0', '6'],
        XtbErrorCode::BE007 => seq!['B', 'E', '0', '0', '7'],
        XtbErrorCode::BE008 => seq!['B', 'E', '0', '0', '8'],
        XtbErrorCode::BE009 => seq!['B', 'E', '0', '0', '9'],
        XtbErrorCode::BE010 => seq!['B', 'E', '0', '1', '0'],
        XtbErrorCode::BE011 => seq!['B', 'E', '0', '1', '1'],
        XtbErrorCode::BE012 => seq!['B', 'E', '0', '1', '2'],
        XtbErrorCode::BE013 => seq!['B', 'E', '0', '1', '3'],
        XtbErrorCode::BE014 => seq!['B', 'E', '0', '1', '4'],
        XtbErrorCode::BE016 => seq!['B', 'E', '0', '1', '6'],
        XtbErrorCode::BE017 => seq!['B', 'E', '0', '1', '7'],
        XtbErrorCode::BE018 => seq!['B', 'E', '0', '1', '8'],
        XtbErrorCode::BE019 => seq!['B', 'E', '0', '1', '9'],
        XtbErrorCode::BE020 => seq!['B', 'E', '0', '2', '0'],
        XtbErrorCode::BE021 => seq!['B', 'E', '0', '2', '1'],
        XtbErrorCode::BE022 => seq!['B', 'E', '0', '2', '2'],
        XtbErrorCode::BE023 => seq!['B', 'E', '0', '2', '3'],
        XtbErrorCode::BE024 => seq!['B', 'E', '0', '2', '4'],
        XtbErrorCode::BE025 => seq!['B', 'E', '0', '2', '5'],
        XtbErrorCode::BE026 => seq!['B', 'E', '0', '2', '6'],
        XtbErrorCode::BE027 => seq!['B', 'E', '0', '2', '7'],
        XtbErrorCode::BE028 => seq!['B', 'E', '0', '2', '8'],
        XtbErrorCode::BE029 => seq!['B', 'E', '0', '2', '9'],
        XtbErrorCode::BE030 => seq!['B', 'E', '0', '3', '0'],
        XtbErrorCode::BE031 => seq!['B', 'E', '0', '3', '1'],
        XtbErrorCode::BE032 => seq!['B', 'E', '0', '3', '2'],
        XtbErrorCode::BE033 => seq!['B', 'E', '0', '3', '3'],
        XtbErrorCode::BE034 => seq!['B', 'E', '0', '3', '4'],
        XtbErrorCode::BE035 => seq!['B', 'E', '0', '3', '5'],
        XtbErrorCode::BE036 => seq!['B', 'E', '0', '3', '6'],
        XtbErrorCode::BE037 => seq!['B', 'E', '0', '3', '7'],
        XtbErrorCode::BE099 => seq!['B', 'E', '0', '9', '9'],
        XtbErrorCode::BE094 => seq!['B', 'E', '0', '9', '4'],
        XtbErrorCode::BE095 => seq!['B', 'E', '0', '9', '5'],
        XtbErrorCode::BE096 => seq!['B', 'E', '0', '9', '6'],
        XtbErrorCode::BE097 => seq!['B', 'E', '0', '9', '7'],
        XtbErrorCode::BE098 => seq!['B', 'E', '0', '9', '8'],
        XtbErrorCode::BE101 => seq!['B', 'E', '1', '0', '1'],
        XtbErrorCode::BE102 => seq!['B', 'E', '1', '0', '2'],
        XtbErrorCode::BE103 => seq!['B', 'E', '1', '0', '3'],
        XtbErrorCode::BE104 => seq!['B', 'E', '1', '0', '4'],
        XtbErrorCode::BE105 => seq!['B', 'E', '1', '0', '5'],
        XtbErrorCode::BE106 => seq!['B', 'E', '1', '0', '6'],
        XtbErrorCode::BE110 => seq!['B', 'E', '1', '1', '0'],
        XtbErrorCode::BE115 => seq!['B', 'E', '1', '1', '5'],
        XtbErrorCode::BE116 => seq!['B', 'E', '1', '1', '6'],
        XtbErrorCode::BE117 => seq!['B', 'E', '1', '1', '7'],
        XtbErrorCode::BE118 => seq!['B', 'E', '1', '1', '8'],
        XtbErrorCode::BE200 => seq!['B', 'E', '2', '0', '0'],
        XtbErrorCode::EX000 => seq!['E', 'X', '0', '0', '0'],
        XtbErrorCode::EX001 => seq!['E', 'X', '0', '0', '1'],
        XtbErrorCode::EX002 => seq!['E', 'X', '0', '0', '2'],
        XtbErrorCode::BE000 => seq!['B', 'E', '0', '0', '0'],
        XtbErrorCode::EX003 => seq!['E', 'X', '0', '0', '3'],
        XtbErrorCode::EX004 => seq!['E', 'X', '0', '0', '4'],
        XtbErrorCode::EX005 => seq!['E', 'X', '0', '0', '5'],
        XtbErrorCode::EX006 => seq!['E', 'X', '0', '0', '6'],
        XtbErrorCode::EX007 => seq!['E', 'X', '0', '0', '7'],
        XtbErrorCode::EX008 => seq!['E', 'X', '0', '0', '8'],
        XtbErrorCode::EX009 => seq!['E', 'X', '0', '0', '9'],
        XtbErrorCode::EX010 => seq!['E', 'X', '0', '1', '0'],
        XtbErrorCode::EX011 => seq!['E', 'X', '0', '1', '1'],
    }
}

fn same_text(a: &str, b: &str) -> (r: bool)
    ensures
        r == (a@ == b@),
{
    a.to_owned() == b.to_owned()
}

impl XtbErrorCode {
    /// The wire name of the code.
    pub fn name(&self) -> (r: &'static str)
        ensures
            r@ == code_name(*self),
    {
        match self {
            XtbErrorCode::BE001 => {
                proof {
                    reveal_strlit("BE001");
                }
                "BE001"
            },
            XtbErrorCode::BE002 => {
                proof {
                    reveal_strlit("BE002");
                }
                "BE002"
            },
            XtbErrorCode::BE003 => {
                proof {
                    reveal_strlit("BE003");
                }
                "BE003"
            },
            XtbErrorCode::BE004 => {
                proof {
                    reveal_strlit("BE004");
                }
                "BE004"
            },
            XtbErrorCode::BE005 => {
                proof {
                    reveal_strlit("BE005");
                }
                "BE005"
            },
            XtbErrorCode::BE006 => {
                proof {
                    reveal_strlit("BE006");
                }
                "BE006"
            },
            XtbErrorCode::BE007 => {
                proof {
                    reveal_strlit("BE007");
                }
                "BE007"
            },
            XtbErrorCode::BE008 => {
                proof {
                    reveal_strlit("BE008");
                }
                "BE008"
            },
            XtbErrorCode::BE009 => {
                proof {
                    reveal_strlit("BE009");
                }
                "BE009"
            },
            XtbErrorCode::BE010 => {
                proof {
                    reveal_strlit("BE010");
                }
                "BE010"
            },
            XtbErrorCode::BE011 => {
                proof {
                    reveal_strlit("BE011");
                }
                "BE011"
            },
            XtbErrorCode::BE012 => {
                proof {
                    reveal_strlit("BE012");
                }
                "BE012"
            },
            XtbErrorCode::BE013 => {
                proof {
                    reveal_strlit("BE013");
                }
                "BE013"
            },
            XtbErrorCode::BE014 => {
                proof {
                    reveal_strlit("BE014");
                }
                "BE014"
            },
            XtbErrorCode::BE016 => {
                proof {
                    reveal_strlit("BE016");
                }
                "BE016"
            },
            XtbErrorCode::BE017 => {
                proof {
                    reveal_strlit("BE017");
                }
                "BE017"
            },
            XtbErrorCode::BE018 => {
                proof {
                    reveal_strlit("BE018");
                }
                "BE018"
            },
            XtbErrorCode::BE019 => {
                proof {
                    reveal_strlit("BE019");
                }
                "BE019"
            },
            XtbErrorCode::BE020 => {
                proof {
                    reveal_strlit("BE020");
                }
                "BE020"
            },
            XtbErrorCode::BE021 => {
                proof {
                    reveal_strlit("BE021");
                }
                "BE021"
            },
            XtbErrorCode::BE022 => {
                proof {
                    reveal_strlit("BE022");
                }
                "BE022"
            },
            XtbErrorCode::BE023 => {
                proof {
                    reveal_strlit("BE023");
                }
                "BE023"
            },
            XtbErrorCode::BE024 => {
                proof {
                    reveal_strlit("BE024");
                }
                "BE024"
            },
            XtbErrorCode::BE025 => {
                proof {
                    reveal_strlit("BE025");
                }
                "BE025"
            },
            XtbErrorCode::BE026 => {
                proof {
                    reveal_strlit("BE026");
                }
                "BE026"
            },
            XtbErrorCode::BE027 => {
                proof {
                    reveal_strlit("BE027");
                }
                "BE027"
            },
            XtbErrorCode::BE028 => {
                proof {
                    reveal_strlit("BE028");
                }
                "BE028"
            },
            XtbErrorCode::BE029 => {
                proof {
                    reveal_strlit("BE029");
                }
                "BE029"
            },
            XtbErrorCode::BE030 => {
                proof {
                    reveal_strlit("BE030");
                }
                "BE030"
            },
            XtbErrorCode::BE031 => {
                proof {
                    reveal_strlit("BE031");
                }
                "BE031"
            },
            XtbErrorCode::BE032 => {
                proof {
                    reveal_strlit("BE032");
                }
                "BE032"
            },
            XtbErrorCode::BE033 => {
                proof {
                    reveal_strlit("BE033");
                }
                "BE033"
            },
            XtbErrorCode::BE034 => {
                proof {
                    reveal_strlit("BE034");
                }
                "BE034"
            },
            XtbErrorCode::BE035 => {
                proof {
                    reveal_strlit("BE035");
                }
                "BE035"
            },
            XtbErrorCode::BE036 => {
                proof {
                    reveal_strlit("BE036");
                }
                "BE036"
            },
            XtbErrorCode::BE037 => {
                proof {
                    reveal_strlit("BE037");
                }
                "BE037"
            },
            XtbErrorCode::BE099 => {
                proof {
                    reveal_strlit("BE099");
                }
                "BE099"
            },
            XtbErrorCode::BE094 => {
                proof {
                    reveal_strlit("BE094");
                }
                "BE094"
            },
            XtbErrorCode::BE095 => {
                proof {
                    reveal_strlit("BE095");
                }
                "BE095"
            },
            XtbErrorCode::BE096 => {
                proof {
                    reveal_strlit("BE096");
                }
                "BE096"
            },
            XtbErrorCode::BE097 => {
                proof {
                    reveal_strlit("BE097");
                }
                "BE097"
            },
            XtbErrorCode::BE098 => {
                proof {
                    reveal_strlit("BE098");
                }
                "BE098"
            },
            XtbErrorCode::BE101 => {
                proof {
                    reveal_strlit("BE101");
                }
                "BE101"
            },
            XtbErrorCode::BE102 => {
                proof {
                    reveal_strlit("BE102");
                }
                "BE102"
            },
            XtbErrorCode::BE103 => {
                proof {
                    reveal_strlit("BE103");
                }
                "BE103"
            },
            XtbErrorCode::BE104 => {
                proof {
                    reveal_strlit("BE104");
                }
                "BE104"
            },
            XtbErrorCode::BE105 => {
                proof {
                    reveal_strlit("BE105");
                }
                "BE105"
            },
            XtbErrorCode::BE106 => {
                proof {
                    reveal_strlit("BE106");
                }
                "BE106"
            },
            XtbErrorCode::BE110 => {
                proof {
                    reveal_strlit("BE110");
                }
                "BE110"
            },
            XtbErrorCode::BE115 => {
                proof {
                    reveal_strlit("BE115");
                }
                "BE115"
            },
            XtbErrorCode::BE116 => {
                proof {
                    reveal_strlit("BE116");
                }
                "BE116"
            },
            XtbErrorCode::BE117 => {
                proof {
                    reveal_strlit("BE117");
                }
                "BE117"
            },
            XtbErrorCode::BE118 => {
                proof {
                    reveal_strlit("BE118");
                }
                "BE118"
            },
            XtbErrorCode::BE200 => {
                proof {
                    reveal_strlit("BE200");
                }
                "BE200"
            },
            XtbErrorCode::EX000 => {
                proof {
                    reveal_strlit("EX000");
                }
                "EX000"
            },
            XtbErrorCode::EX001 => {
                proof {
                    reveal_strlit("EX001");
                }
                "EX001"
            },
            XtbErrorCode::EX002 => {
                proof {
                    reveal_strlit("EX002");
                }
                "EX002"
            },
            XtbErrorCode::BE000 => {
                proof {
                    reveal_strlit("BE000");
                }
                "BE000"
            },
            XtbErrorCode::EX003 => {
                proof {
                    reveal_strlit("EX003");
                }
                "EX003"
            },
            XtbErrorCode::EX004 => {
                proof {
                    reveal_strlit("EX004");
                }
                "EX004"
            },
            XtbErrorCode::EX005 => {
                proof {
                    reveal_strlit("EX005");
                }
                "EX005"
            },
            XtbErrorCode::EX006 => {
                proof {
                    reveal_strlit("EX006");
                }
                "EX006"
            },
            XtbErrorCode::EX007 => {
                proof {
                    reveal_strlit("EX007");
                }
                "EX007"
            },
            XtbErrorCode::EX008 => {
                proof {
                    reveal_strlit("EX008");
                }
                "EX008"
            },
            XtbErrorCode::EX009 => {
                proof {
                    reveal_strlit("EX009");
                }
                "EX009"
            },
            XtbErrorCode::EX010 => {
                proof {
                    reveal_strlit("EX010");
                }
                "EX010"
            },
            XtbErrorCode::EX011 => {
                proof {
                    reveal_strlit("EX011");
                }
                "EX011"
            },
        }
    }

    /// The code with wire name `s`, if there is one.
    pub fn from_name(s: &str) -> (r: Option<XtbErrorCode>)
        ensures
            r matches Some(c) ==> code_name(c) == s@,
            r is None ==> forall|c: XtbErrorCode| code_name(c) != s@,
    {
        if same_text(XtbErrorCode::BE001.name(), s) {
            return Some(XtbErrorCode::BE001);
        }
        if same_text(XtbErrorCode::BE002.name(), s) {
            return Some(XtbErrorCode::BE002);
        }
        if same_text(XtbErrorCode::BE003.name(), s) {
            return Some(XtbErrorCode::BE003);
        }
        if same_text(XtbErrorCode::BE004.name(), s) {
            return Some(XtbErrorCode::BE004);
        }
        if same_text(XtbErrorCode::BE005.name(), s) {
            return Some(XtbErrorCode::BE005);
        }
        if same_text(XtbErrorCode::BE006.name(), s) {
            return Some(XtbErrorCode::BE006);
        }
        if same_text(XtbErrorCode::BE007.name(), s) {
            return Some(XtbErrorCode::BE007);
        }
        if same_text(XtbErrorCode::BE008.name(), s) {
            return Some(XtbErrorCode::BE008);
        }
        if same_text(XtbErrorCode::BE009.name(), s) {
            return Some(XtbErrorCode::BE009);
        }
        if same_text(XtbErrorCode::BE010.name(), s) {
            return Some(XtbErrorCode::BE010);
        }
        if same_text(XtbErrorCode::BE011.name(), s) {
            return Some(XtbErrorCode::BE011);
        }
        if same_text(XtbErrorCode::BE012.name(), s) {
            return Some(XtbErrorCode::BE012);
        }
        if same_text(XtbErrorCode::BE013.name(), s) {
            return Some(XtbErrorCode::BE013);
        }
        if same_text(XtbErrorCode::BE014.name(), s) {
            return Some(XtbErrorCode::BE014);
        }
        if same_text(XtbErrorCode::BE016.name(), s) {
            return Some(XtbErrorCode::BE016);
        }
        if same_text(XtbErrorCode::BE017.name(), s) {
            return Some(XtbErrorCode::BE017);
        }
        if same_text(XtbErrorCode::BE018.name(), s) {
            return Some(XtbErrorCode::BE018);
        }
        if same_text(XtbErrorCode::BE019.name(), s) {
            return Some(XtbErrorCode::BE019);
        }
        if same_text(XtbErrorCode::BE020.name(), s) {
            return Some(XtbErrorCode::BE020);
        }
        if same_text(XtbErrorCode::BE021.name(), s) {
            return Some(XtbErrorCode::BE021);
        }
        if same_text(XtbErrorCode::BE022.name(), s) {
            return Some(XtbErrorCode::BE022);
        }
        if same_text(XtbErrorCode::BE023.name(), s) {
            return Some(XtbErrorCode::BE023);
        }
        if same_text(XtbErrorCode::BE024.name(), s) {
            return Some(XtbErrorCode::BE024);
        }
        if same_text(XtbErrorCode::BE025.name(), s) {
            return Some(XtbErrorCode::BE025);
        }
        if same_text(XtbErrorCode::BE026.name(), s) {
            return Some(XtbErrorCode::BE026);
        }
        if same_text(XtbErrorCode::BE027.name(), s) {
            return Some(XtbErrorCode::BE027);
        }
        if same_text(XtbErrorCode::BE028.name(), s) {
            return Some(XtbErrorCode::BE028);
        }
        if same_text(XtbErrorCode::BE029.name(), s) {
            return Some(XtbErrorCode::BE029);
        }
        if same_text(XtbErrorCode::BE030.name(), s) {
            return Some(XtbErrorCode::BE030);
        }
        if same_text(XtbErrorCode::BE031.name(), s) {
            return Some(XtbErrorCode::BE031);
        }
        if same_text(XtbErrorCode::BE032.name(), s) {
            return Some(XtbErrorCode::BE032);
        }
        if same_text(XtbErrorCode::BE033.name(), s) {
            return Some(XtbErrorCode::BE033);
        }
        if same_text(XtbErrorCode::BE034.name(), s) {
            return Some(XtbErrorCode::BE034);
        }
        if same_text(XtbErrorCode::BE035.name(), s) {
            return Some(XtbErrorCode::BE035);
        }
        if same_text(XtbErrorCode::BE036.name(), s) {
            return Some(XtbErrorCode::BE036);
        }
        if same_text(XtbErrorCode::BE037.name(), s) {
            return Some(XtbErrorCode::BE037);
        }
        if same_text(XtbErrorCode::BE099.name(), s) {
            return Some(XtbErrorCode::BE099);
        }
        if same_text(XtbErrorCode::BE094.name(), s) {
            return Some(XtbErrorCode::BE094);
        }
        if same_text(XtbErrorCode::BE095.name(), s) {
            return Some(XtbErrorCode::BE095);
        }
        if same_text(XtbErrorCode::BE096.name(), s) {
            return Some(XtbErrorCode::BE096);
        }
        if same_text(XtbErrorCode::BE097.name(), s) {
            return Some(XtbErrorCode::BE097);
        }
        if same_text(XtbErrorCode::BE098.name(), s) {
            return Some(XtbErrorCode::BE098);
        }
        if same_text(XtbErrorCode::BE101.name(), s) {
            return Some(XtbErrorCode::BE101);
        }
        if same_text(XtbErrorCode::BE102.name(), s) {
            return Some(XtbErrorCode::BE102);
        }
        if same_text(XtbErrorCode::BE103.name(), s) {
            return Some(XtbErrorCode::BE103);
        }
        if same_text(XtbErrorCode::BE104.name(), s) {
            return Some(XtbErrorCode::BE104);
        }
        if same_text(XtbErrorCode::BE105.name(), s) {
            return Some(XtbErrorCode::BE105);
        }
        if same_text(XtbErrorCode::BE106.name(), s) {
            return Some(XtbErrorCode::BE106);
        }
        if same_text(XtbErrorCode::BE110.name(), s) {
            return Some(XtbErrorCode::BE110);
        }
        if same_text(XtbErrorCode::BE115.name(), s) {
            return Some(XtbErrorCode::BE115);
        }
        if same_text(XtbErrorCode::BE116.name(), s) {
            return Some(XtbErrorCode::BE116);
        }
        if same_text(XtbErrorCode::BE117.name(), s) {
            return Some(XtbErrorCode::BE117);
        }
        if same_text(XtbErrorCode::BE118.name(), s) {
            return Some(XtbErrorCode::BE118);
        }
        if same_text(XtbErrorCode::BE200.name(), s) {
            return Some(XtbErrorCode::BE200);
        }
        if same_text(XtbErrorCode::EX000.name(), s) {
            return Some(XtbErrorCode::EX000);
        }
        if same_text(XtbErrorCode::EX001.name(), s) {
            return Some(XtbErrorCode::EX001);
        }
        if same_text(XtbErrorCode::EX002.name(), s) {
            return Some(XtbErrorCode::EX002);
        }
        if same_text(XtbErrorCode::BE000.name(), s) {
            return Some(XtbErrorCode::BE000);
        }
        if same_text(XtbErrorCode::EX003.name(), s) {
            return Some(XtbErrorCode::EX003);
        }
        if same_text(XtbErrorCode::EX004.name(), s) {
            return Some(XtbErrorCode::EX004);
        }
        if same_text(XtbErrorCode::EX005.name(), s) {
            return Some(XtbErrorCode::EX005);
        }
        if same_text(XtbErrorCode::EX006.name(), s) {
            return Some(XtbErrorCode::EX006);
        }
        if same_text(XtbErrorCode::EX007.name(), s) {
            return Some(XtbErrorCode::EX007);
        }
        if same_text(XtbErrorCode::EX008.name(), s) {
            return Some(XtbErrorCode::EX008);
        }
        if same_text(XtbErrorCode::EX009.name(), s) {
            return Some(XtbErrorCode::EX009);
        }
        if same_text(XtbErrorCode::EX010.name(), s) {
            return Some(XtbErrorCode::EX010);
        }
        if same_text(XtbErrorCode::EX011.name(), s) {
            return Some(XtbErrorCode::EX011);
        }
        None
    }
}

} // verus!
