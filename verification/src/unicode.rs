use vstd::prelude::*;

verus! {

/// Unicode `White_Space`: what `char::is_whitespace` and the `\s` class accept.
pub open spec fn is_space(c: char) -> bool {
    let x = c as u32;
    if x < 0x2000 {
        if x < 0x85 {
            (0x9 <= x && x <= 0xd)
                || x == 0x20
        } else {
            x == 0x85
                || x == 0xa0
                || x == 0x1680
        }
    } else {
        if x < 0x202f {
            (0x2000 <= x && x <= 0x200a)
                || (0x2028 <= x && x <= 0x2029)
        } else {
            x == 0x202f
                || x == 0x205f
                || x == 0x3000
        }
    }
}

/// Executable form of [`is_space`].
pub fn is_space_exec(c: char) -> (r: bool)
    ensures
        r == is_space(c),
{
    
    let x = c as u32;
    if x < 0x2000 {
        if x < 0x85 {
            (0x9 <= x && x <= 0xd)
                || x == 0x20
        } else {
            x == 0x85
                || x == 0xa0
                || x == 0x1680
        }
    } else {
        if x < 0x202f {
            (0x2000 <= x && x <= 0x200a)
                || (0x2028 <= x && x <= 0x2029)
        } else {
            x == 0x202f
                || x == 0x205f
                || x == 0x3000
        }
    }
}

/// Unicode general category `Nd` (decimal numbers): what the `\d` class accepts.
pub open spec fn is_decimal(c: char) -> bool {
    let x = c as u32;
    if x < 0xabf0 {
        if x < 0x1040 {
            if x < 0xb66 {
                if x < 0x966 {
                    (0x30 <= x && x <= 0x39)
                        || (0x660 <= x && x <= 0x669)
                        || (0x6f0 <= x && x <= 0x6f9)
                        || (0x7c0 <= x && x <= 0x7c9)
                } else {
                    (0x966 <= x && x <= 0x96f)
                        || (0x9e6 <= x && x <= 0x9ef)
                        || (0xa66 <= x && x <= 0xa6f)
                        || (0xae6 <= x && x <= 0xaef)
                }
            } else {
                if x < 0xd66 {
                    (0xb66 <= x && x <= 0xb6f)
                        || (0xbe6 <= x && x <= 0xbef)
                        || (0xc66 <= x && x <= 0xc6f)
                        || (0xce6 <= x && x <= 0xcef)
                } else {
                    if x < 0xe50 {
                        (0xd66 <= x && x <= 0xd6f)
                            || (0xde6 <= x && x <= 0xdef)
                    } else {
                        (0xe50 <= x && x <= 0xe59)
                            || (0xed0 <= x && x <= 0xed9)
                            || (0xf20 <= x && x <= 0xf29)
                    }
                }
            }
        } else {
            if x < 0x1bb0 {
                if x < 0x1946 {
                    (0x1040 <= x && x <= 0x1049)
                        || (0x1090 <= x && x <= 0x1099)
                        || (0x17e0 <= x && x <= 0x17e9)
                        || (0x1810 <= x && x <= 0x1819)
                } else {
                    if x < 0x1a80 {
                        (0x1946 <= x && x <= 0x194f)
                            || (0x19d0 <= x && x <= 0x19d9)
                    } else {
                        (0x1a80 <= x && x <= 0x1a89)
                            || (0x1a90 <= x && x <= 0x1a99)
                            || (0x1b50 <= x && x <= 0x1b59)
                    }
                }
            } else {
                if x < 0xa8d0 {
                    (0x1bb0 <= x && x <= 0x1bb9)
                        || (0x1c40 <= x && x <= 0x1c49)
                        || (0x1c50 <= x && x <= 0x1c59)
                        || (0xa620 <= x && x <= 0xa629)
                } else {
                    if x < 0xa9d0 {
                        (0xa8d0 <= x && x <= 0xa8d9)
                            || (0xa900 <= x && x <= 0xa909)
                    } else {
                        (0xa9d0 <= x && x <= 0xa9d9)
                            || (0xa9f0 <= x && x <= 0xa9f9)
                            || (0xaa50 <= x && x <= 0xaa59)
                    }
                }
            }
        }
    } else {
        if x < 0x11bf0 {
            if x < 0x112f0 {
                if x < 0x10d40 {
                    (0xabf0 <= x && x <= 0xabf9)
                        || (0xff10 <= x && x <= 0xff19)
                        || (0x104a0 <= x && x <= 0x104a9)
                        || (0x10d30 <= x && x <= 0x10d39)
                } else {
                    if x < 0x110f0 {
                        (0x10d40 <= x && x <= 0x10d49)
                            || (0x11066 <= x && x <= 0x1106f)
                    } else {
                        (0x110f0 <= x && x <= 0x110f9)
                            || (0x11136 <= x && x <= 0x1113f)
                            || (0x111d0 <= x && x <= 0x111d9)
                    }
                }
            } else {
                if x < 0x116c0 {
                    (0x112f0 <= x && x <= 0x112f9)
                        || (0x11450 <= x && x <= 0x11459)
                        || (0x114d0 <= x && x <= 0x114d9)
                        || (0x11650 <= x && x <= 0x11659)
                } else {
                    if x < 0x11730 {
                        (0x116c0 <= x && x <= 0x116c9)
                            || (0x116d0 <= x && x <= 0x116e3)
                    } else {
                        (0x11730 <= x && x <= 0x11739)
                            || (0x118e0 <= x && x <= 0x118e9)
                            || (0x11950 <= x && x <= 0x11959)
                    }
                }
            }
        } else {
            if x < 0x16d70 {
                if x < 0x11f50 {
                    (0x11bf0 <= x && x <= 0x11bf9)
                        || (0x11c50 <= x && x <= 0x11c59)
                        || (0x11d50 <= x && x <= 0x11d59)
                        || (0x11da0 <= x && x <= 0x11da9)
                } else {
                    if x < 0x16a60 {
                        (0x11f50 <= x && x <= 0x11f59)
                            || (0x16130 <= x && x <= 0x16139)
                    } else {
                        (0x16a60 <= x && x <= 0x16a69)
                            || (0x16ac0 <= x && x <= 0x16ac9)
                            || (0x16b50 <= x && x <= 0x16b59)
                    }
                }
            } else {
                if x < 0x1e2f0 {
                    (0x16d70 <= x && x <= 0x16d79)
                        || (0x1ccf0 <= x && x <= 0x1ccf9)
                        || (0x1d7ce <= x && x <= 0x1d7ff)
                        || (0x1e140 <= x && x <= 0x1e149)
                } else {
                    if x < 0x1e5f1 {
                        (0x1e2f0 <= x && x <= 0x1e2f9)
                            || (0x1e4f0 <= x && x <= 0x1e4f9)
                    } else {
                        (0x1e5f1 <= x && x <= 0x1e5fa)
                            || (0x1e950 <= x && x <= 0x1e959)
                            || (0x1fbf0 <= x && x <= 0x1fbf9)
                    }
                }
            }
        }
    }
}

/// Executable form of [`is_decimal`].
pub fn is_decimal_exec(c: char) -> (r: bool)
    ensures
        r == is_decimal(c),
{
    
    let x = c as u32;
    if x < 0xabf0 {
        if x < 0x1040 {
            if x < 0xb66 {
                if x < 0x966 {
                    (0x30 <= x && x <= 0x39)
                        || (0x660 <= x && x <= 0x669)
                        || (0x6f0 <= x && x <= 0x6f9)
                        || (0x7c0 <= x && x <= 0x7c9)
                } else {
                    (0x966 <= x && x <= 0x96f)
                        || (0x9e6 <= x && x <= 0x9ef)
                        || (0xa66 <= x && x <= 0xa6f)
                        || (0xae6 <= x && x <= 0xaef)
                }
            } else {
                if x < 0xd66 {
                    (0xb66 <= x && x <= 0xb6f)
                        || (0xbe6 <= x && x <= 0xbef)
                        || (0xc66 <= x && x <= 0xc6f)
                        || (0xce6 <= x && x <= 0xcef)
                } else {
                    if x < 0xe50 {
                        (0xd66 <= x && x <= 0xd6f)
                            || (0xde6 <= x && x <= 0xdef)
                    } else {
                        (0xe50 <= x && x <= 0xe59)
                            || (0xed0 <= x && x <= 0xed9)
                            || (0xf20 <= x && x <= 0xf29)
                    }
                }
            }
        } else {
            if x < 0x1bb0 {
                if x < 0x1946 {
                    (0x1040 <= x && x <= 0x1049)
                        || (0x1090 <= x && x <= 0x1099)
                        || (0x17e0 <= x && x <= 0x17e9)
                        || (0x1810 <= x && x <= 0x1819)
                } else {
                    if x < 0x1a80 {
                        (0x1946 <= x && x <= 0x194f)
                            || (0x19d0 <= x && x <= 0x19d9)
                    } else {
                        (0x1a80 <= x && x <= 0x1a89)
                            || (0x1a90 <= x && x <= 0x1a99)
                            || (0x1b50 <= x && x <= 0x1b59)
                    }
                }
            } else {
                if x < 0xa8d0 {
                    (0x1bb0 <= x && x <= 0x1bb9)
                        || (0x1c40 <= x && x <= 0x1c49)
                        || (0x1c50 <= x && x <= 0x1c59)
                        || (0xa620 <= x && x <= 0xa629)
                } else {
                    if x < 0xa9d0 {
                        (0xa8d0 <= x && x <= 0xa8d9)
                            || (0xa900 <= x && x <= 0xa909)
                    } else {
                        (0xa9d0 <= x && x <= 0xa9d9)
                            || (0xa9f0 <= x && x <= 0xa9f9)
                            || (0xaa50 <= x && x <= 0xaa59)
                    }
                }
            }
        }
    } else {
        if x < 0x11bf0 {
            if x < 0x112f0 {
                if x < 0x10d40 {
                    (0xabf0 <= x && x <= 0xabf9)
                        || (0xff10 <= x && x <= 0xff19)
                        || (0x104a0 <= x && x <= 0x104a9)
                        || (0x10d30 <= x && x <= 0x10d39)
                } else {
                    if x < 0x110f0 {
                        (0x10d40 <= x && x <= 0x10d49)
                            || (0x11066 <= x && x <= 0x1106f)
                    } else {
                        (0x110f0 <= x && x <= 0x110f9)
                            || (0x11136 <= x && x <= 0x1113f)
                            || (0x111d0 <= x && x <= 0x111d9)
                    }
                }
            } else {
                if x < 0x116c0 {
                    (0x112f0 <= x && x <= 0x112f9)
                        || (0x11450 <= x && x <= 0x11459)
                        || (0x114d0 <= x && x <= 0x114d9)
                        || (0x11650 <= x && x <= 0x11659)
                } else {
                    if x < 0x11730 {
                        (0x116c0 <= x && x <= 0x116c9)
                            || (0x116d0 <= x && x <= 0x116e3)
                    } else {
                        (0x11730 <= x && x <= 0x11739)
                            || (0x118e0 <= x && x <= 0x118e9)
                            || (0x11950 <= x && x <= 0x11959)
                    }
                }
            }
        } else {
            if x < 0x16d70 {
                if x < 0x11f50 {
                    (0x11bf0 <= x && x <= 0x11bf9)
                        || (0x11c50 <= x && x <= 0x11c59)
                        || (0x11d50 <= x && x <= 0x11d59)
                        || (0x11da0 <= x && x <= 0x11da9)
                } else {
                    if x < 0x16a60 {
                        (0x11f50 <= x && x <= 0x11f59)
                            || (0x16130 <= x && x <= 0x16139)
                    } else {
                        (0x16a60 <= x && x <= 0x16a69)
                            || (0x16ac0 <= x && x <= 0x16ac9)
                            || (0x16b50 <= x && x <= 0x16b59)
                    }
                }
            } else {
                if x < 0x1e2f0 {
                    (0x16d70 <= x && x <= 0x16d79)
                        || (0x1ccf0 <= x && x <= 0x1ccf9)
                        || (0x1d7ce <= x && x <= 0x1d7ff)
                        || (0x1e140 <= x && x <= 0x1e149)
                } else {
                    if x < 0x1e5f1 {
                        (0x1e2f0 <= x && x <= 0x1e2f9)
                            || (0x1e4f0 <= x && x <= 0x1e4f9)
                    } else {
                        (0x1e5f1 <= x && x <= 0x1e5fa)
                            || (0x1e950 <= x && x <= 0x1e959)
                            || (0x1fbf0 <= x && x <= 0x1fbf9)
                    }
                }
            }
        }
    }
}

/// Unicode word characters: what the `\w` class accepts, and so what a `\b` boundary looks at.
#[verifier::opaque]
pub open spec fn is_word(c: char) -> bool {
    let x = c as u32;
    if x < 0xf900 {
        if x < 0xf3e {
            if x < 0xae6 {
                if x < 0x860 {
                    if x < 0x483 {
                        if x < 0x2ec {
                            if x < 0xba {
                                if x < 0x61 {
                                    (0x30 <= x && x <= 0x39)
                                        || (0x41 <= x && x <= 0x5a)
                                        || x == 0x5f
                                } else {
                                    (0x61 <= x && x <= 0x7a)
                                        || x == 0xaa
                                        || x == 0xb5
                                }
                            } else {
                                if x < 0xf8 {
                                    x == 0xba
                                        || (0xc0 <= x && x <= 0xd6)
                                        || (0xd8 <= x && x <= 0xf6)
                                } else {
                                    (0xf8 <= x && x <= 0x2c1)
                                        || (0x2c6 <= x && x <= 0x2d1)
                                        || (0x2e0 <= x && x <= 0x2e4)
                                }
                            }
                        } else {
                            if x < 0x386 {
                                if x < 0x376 {
                                    x == 0x2ec
                                        || x == 0x2ee
                                        || (0x300 <= x && x <= 0x374)
                                } else {
                                    (0x376 <= x && x <= 0x377)
                                        || (0x37a <= x && x <= 0x37d)
                                        || x == 0x37f
                                }
                            } else {
                                if x < 0x38e {
                                    x == 0x386
                                        || (0x388 <= x && x <= 0x38a)
                                        || x == 0x38c
                                } else {
                                    (0x38e <= x && x <= 0x3a1)
                                        || (0x3a3 <= x && x <= 0x3f5)
                                        || (0x3f7 <= x && x <= 0x481)
                                }
                            }
                        }
                    } else {
                        if x < 0x620 {
                            if x < 0x5c1 {
                                if x < 0x560 {
                                    (0x483 <= x && x <= 0x52f)
                                        || (0x531 <= x && x <= 0x556)
                                        || x == 0x559
                                } else {
                                    (0x560 <= x && x <= 0x588)
                                        || (0x591 <= x && x <= 0x5bd)
                                        || x == 0x5bf
                                }
                            } else {
                                if x < 0x5d0 {
                                    (0x5c1 <= x && x <= 0x5c2)
                                        || (0x5c4 <= x && x <= 0x5c5)
                                        || x == 0x5c7
                                } else {
                                    (0x5d0 <= x && x <= 0x5ea)
                                        || (0x5ef <= x && x <= 0x5f2)
                                        || (0x610 <= x && x <= 0x61a)
                                }
                            }
                        } else {
                            if x < 0x710 {
                                if x < 0x6df {
                                    (0x620 <= x && x <= 0x669)
                                        || (0x66e <= x && x <= 0x6d3)
                                        || (0x6d5 <= x && x <= 0x6dc)
                                } else {
                                    (0x6df <= x && x <= 0x6e8)
                                        || (0x6ea <= x && x <= 0x6fc)
                                        || x == 0x6ff
                                }
                            } else {
                                if x < 0x7fa {
                                    (0x710 <= x && x <= 0x74a)
                                        || (0x74d <= x && x <= 0x7b1)
                                        || (0x7c0 <= x && x <= 0x7f5)
                                } else {
                                    x == 0x7fa
                                        || x == 0x7fd
                                        || (0x800 <= x && x <= 0x82d)
                                        || (0x840 <= x && x <= 0x85b)
                                }
                            }
                        }
                    }
                } else {
                    if x < 0xa13 {
                        if x < 0x9b6 {
                            if x < 0x971 {
                                if x < 0x897 {
                                    (0x860 <= x && x <= 0x86a)
                                        || (0x870 <= x && x <= 0x887)
                                        || (0x889 <= x && x <= 0x88e)
                                } else {
                                    (0x897 <= x && x <= 0x8e1)
                                        || (0x8e3 <= x && x <= 0x963)
                                        || (0x966 <= x && x <= 0x96f)
                                }
                            } else {
                                if x < 0x993 {
                                    (0x971 <= x && x <= 0x983)
                                        || (0x985 <= x && x <= 0x98c)
                                        || (0x98f <= x && x <= 0x990)
                                } else {
                                    (0x993 <= x && x <= 0x9a8)
                                        || (0x9aa <= x && x <= 0x9b0)
                                        || x == 0x9b2
                                }
                            }
                        } else {
                            if x < 0x9df {
                                if x < 0x9cb {
                                    (0x9b6 <= x && x <= 0x9b9)
                                        || (0x9bc <= x && x <= 0x9c4)
                                        || (0x9c7 <= x && x <= 0x9c8)
                                } else {
                                    (0x9cb <= x && x <= 0x9ce)
                                        || x == 0x9d7
                                        || (0x9dc <= x && x <= 0x9dd)
                                }
                            } else {
                                if x < 0x9fe {
                                    (0x9df <= x && x <= 0x9e3)
                                        || (0x9e6 <= x && x <= 0x9f1)
                                        || x == 0x9fc
                                } else {
                                    x == 0x9fe
                                        || (0xa01 <= x && x <= 0xa03)
                                        || (0xa05 <= x && x <= 0xa0a)
                                        || (0xa0f <= x && x <= 0xa10)
                                }
                            }
                        }
                    } else {
                        if x < 0xa66 {
                            if x < 0xa3e {
                                if x < 0xa35 {
                                    (0xa13 <= x && x <= 0xa28)
                                        || (0xa2a <= x && x <= 0xa30)
                                        || (0xa32 <= x && x <= 0xa33)
                                } else {
                                    (0xa35 <= x && x <= 0xa36)
                                        || (0xa38 <= x && x <= 0xa39)
                                        || x == 0xa3c
                                }
                            } else {
                                if x < 0xa51 {
                                    (0xa3e <= x && x <= 0xa42)
                                        || (0xa47 <= x && x <= 0xa48)
                                        || (0xa4b <= x && x <= 0xa4d)
                                } else {
                                    x == 0xa51
                                        || (0xa59 <= x && x <= 0xa5c)
                                        || x == 0xa5e
                                }
                            }
                        } else {
                            if x < 0xab2 {
                                if x < 0xa8f {
                                    (0xa66 <= x && x <= 0xa75)
                                        || (0xa81 <= x && x <= 0xa83)
                                        || (0xa85 <= x && x <= 0xa8d)
                                } else {
                                    (0xa8f <= x && x <= 0xa91)
                                        || (0xa93 <= x && x <= 0xaa8)
                                        || (0xaaa <= x && x <= 0xab0)
                                }
                            } else {
                                if x < 0xac7 {
                                    (0xab2 <= x && x <= 0xab3)
                                        || (0xab5 <= x && x <= 0xab9)
                                        || (0xabc <= x && x <= 0xac5)
                                } else {
                                    (0xac7 <= x && x <= 0xac9)
                                        || (0xacb <= x && x <= 0xacd)
                                        || x == 0xad0
                                        || (0xae0 <= x && x <= 0xae3)
                                }
                            }
                        }
                    }
                }
            } else {
                if x < 0xcb5 {
                    if x < 0xba8 {
                        if x < 0xb55 {
                            if x < 0xb2a {
                                if x < 0xb05 {
                                    (0xae6 <= x && x <= 0xaef)
                                        || (0xaf9 <= x && x <= 0xaff)
                                        || (0xb01 <= x && x <= 0xb03)
                                } else {
                                    (0xb05 <= x && x <= 0xb0c)
                                        || (0xb0f <= x && x <= 0xb10)
                                        || (0xb13 <= x && x <= 0xb28)
                                }
                            } else {
                                if x < 0xb3c {
                                    (0xb2a <= x && x <= 0xb30)
                                        || (0xb32 <= x && x <= 0xb33)
                                        || (0xb35 <= x && x <= 0xb39)
                                } else {
                                    (0xb3c <= x && x <= 0xb44)
                                        || (0xb47 <= x && x <= 0xb48)
                                        || (0xb4b <= x && x <= 0xb4d)
                                }
                            }
                        } else {
                            if x < 0xb85 {
                                if x < 0xb66 {
                                    (0xb55 <= x && x <= 0xb57)
                                        || (0xb5c <= x && x <= 0xb5d)
                                        || (0xb5f <= x && x <= 0xb63)
                                } else {
                                    (0xb66 <= x && x <= 0xb6f)
                                        || x == 0xb71
                                        || (0xb82 <= x && x <= 0xb83)
                                }
                            } else {
                                if x < 0xb99 {
                                    (0xb85 <= x && x <= 0xb8a)
                                        || (0xb8e <= x && x <= 0xb90)
                                        || (0xb92 <= x && x <= 0xb95)
                                } else {
                                    (0xb99 <= x && x <= 0xb9a)
                                        || x == 0xb9c
                                        || (0xb9e <= x && x <= 0xb9f)
                                        || (0xba3 <= x && x <= 0xba4)
                                }
                            }
                        }
                    } else {
                        if x < 0xc3c {
                            if x < 0xbd7 {
                                if x < 0xbc6 {
                                    (0xba8 <= x && x <= 0xbaa)
                                        || (0xbae <= x && x <= 0xbb9)
                                        || (0xbbe <= x && x <= 0xbc2)
                                } else {
                                    (0xbc6 <= x && x <= 0xbc8)
                                        || (0xbca <= x && x <= 0xbcd)
                                        || x == 0xbd0
                                }
                            } else {
                                if x < 0xc0e {
                                    x == 0xbd7
                                        || (0xbe6 <= x && x <= 0xbef)
                                        || (0xc00 <= x && x <= 0xc0c)
                                } else {
                                    (0xc0e <= x && x <= 0xc10)
                                        || (0xc12 <= x && x <= 0xc28)
                                        || (0xc2a <= x && x <= 0xc39)
                                }
                            }
                        } else {
                            if x < 0xc60 {
                                if x < 0xc55 {
                                    (0xc3c <= x && x <= 0xc44)
                                        || (0xc46 <= x && x <= 0xc48)
                                        || (0xc4a <= x && x <= 0xc4d)
                                } else {
                                    (0xc55 <= x && x <= 0xc56)
                                        || (0xc58 <= x && x <= 0xc5a)
                                        || x == 0xc5d
                                }
                            } else {
                                if x < 0xc85 {
                                    (0xc60 <= x && x <= 0xc63)
                                        || (0xc66 <= x && x <= 0xc6f)
                                        || (0xc80 <= x && x <= 0xc83)
                                } else {
                                    (0xc85 <= x && x <= 0xc8c)
                                        || (0xc8e <= x && x <= 0xc90)
                                        || (0xc92 <= x && x <= 0xca8)
                                        || (0xcaa <= x && x <= 0xcb3)
                                }
                            }
                        }
                    }
                } else {
                    if x < 0xdcf {
                        if x < 0xd46 {
                            if x < 0xce0 {
                                if x < 0xcca {
                                    (0xcb5 <= x && x <= 0xcb9)
                                        || (0xcbc <= x && x <= 0xcc4)
                                        || (0xcc6 <= x && x <= 0xcc8)
                                } else {
                                    (0xcca <= x && x <= 0xccd)
                                        || (0xcd5 <= x && x <= 0xcd6)
                                        || (0xcdd <= x && x <= 0xcde)
                                }
                            } else {
                                if x < 0xd00 {
                                    (0xce0 <= x && x <= 0xce3)
                                        || (0xce6 <= x && x <= 0xcef)
                                        || (0xcf1 <= x && x <= 0xcf3)
                                } else {
                                    (0xd00 <= x && x <= 0xd0c)
                                        || (0xd0e <= x && x <= 0xd10)
                                        || (0xd12 <= x && x <= 0xd44)
                                }
                            }
                        } else {
                            if x < 0xd81 {
                                if x < 0xd5f {
                                    (0xd46 <= x && x <= 0xd48)
                                        || (0xd4a <= x && x <= 0xd4e)
                                        || (0xd54 <= x && x <= 0xd57)
                                } else {
                                    (0xd5f <= x && x <= 0xd63)
                                        || (0xd66 <= x && x <= 0xd6f)
                                        || (0xd7a <= x && x <= 0xd7f)
                                }
                            } else {
                                if x < 0xdb3 {
                                    (0xd81 <= x && x <= 0xd83)
                                        || (0xd85 <= x && x <= 0xd96)
                                        || (0xd9a <= x && x <= 0xdb1)
                                } else {
                                    (0xdb3 <= x && x <= 0xdbb)
                                        || x == 0xdbd
                                        || (0xdc0 <= x && x <= 0xdc6)
                                        || x == 0xdca
                                }
                            }
                        }
                    } else {
                        if x < 0xea5 {
                            if x < 0xe40 {
                                if x < 0xde6 {
                                    (0xdcf <= x && x <= 0xdd4)
                                        || x == 0xdd6
                                        || (0xdd8 <= x && x <= 0xddf)
                                } else {
                                    (0xde6 <= x && x <= 0xdef)
                                        || (0xdf2 <= x && x <= 0xdf3)
                                        || (0xe01 <= x && x <= 0xe3a)
                                }
                            } else {
                                if x < 0xe84 {
                                    (0xe40 <= x && x <= 0xe4e)
                                        || (0xe50 <= x && x <= 0xe59)
                                        || (0xe81 <= x && x <= 0xe82)
                                } else {
                                    x == 0xe84
                                        || (0xe86 <= x && x <= 0xe8a)
                                        || (0xe8c <= x && x <= 0xea3)
                                }
                            }
                        } else {
                            if x < 0xedc {
                                if x < 0xec6 {
                                    x == 0xea5
                                        || (0xea7 <= x && x <= 0xebd)
                                        || (0xec0 <= x && x <= 0xec4)
                                } else {
                                    x == 0xec6
                                        || (0xec8 <= x && x <= 0xece)
                                        || (0xed0 <= x && x <= 0xed9)
                                }
                            } else {
                                if x < 0xf20 {
                                    (0xedc <= x && x <= 0xedf)
                                        || x == 0xf00
                                        || (0xf18 <= x && x <= 0xf19)
                                } else {
                                    (0xf20 <= x && x <= 0xf29)
                                        || x == 0xf35
                                        || x == 0xf37
                                        || x == 0xf39
                                }
                            }
                        }
                    }
                }
            }
        } else {
            if x < 0x203f {
                if x < 0x1820 {
                    if x < 0x12c8 {
                        if x < 0x10fc {
                            if x < 0x1000 {
                                if x < 0xf86 {
                                    (0xf3e <= x && x <= 0xf47)
                                        || (0xf49 <= x && x <= 0xf6c)
                                        || (0xf71 <= x && x <= 0xf84)
                                } else {
                                    (0xf86 <= x && x <= 0xf97)
                                        || (0xf99 <= x && x <= 0xfbc)
                                        || x == 0xfc6
                                }
                            } else {
                                if x < 0x10c7 {
                                    (0x1000 <= x && x <= 0x1049)
                                        || (0x1050 <= x && x <= 0x109d)
                                        || (0x10a0 <= x && x <= 0x10c5)
                                } else {
                                    x == 0x10c7
                                        || x == 0x10cd
                                        || (0x10d0 <= x && x <= 0x10fa)
                                }
                            }
                        } else {
                            if x < 0x128a {
                                if x < 0x1258 {
                                    (0x10fc <= x && x <= 0x1248)
                                        || (0x124a <= x && x <= 0x124d)
                                        || (0x1250 <= x && x <= 0x1256)
                                } else {
                                    x == 0x1258
                                        || (0x125a <= x && x <= 0x125d)
                                        || (0x1260 <= x && x <= 0x1288)
                                }
                            } else {
                                if x < 0x12b8 {
                                    (0x128a <= x && x <= 0x128d)
                                        || (0x1290 <= x && x <= 0x12b0)
                                        || (0x12b2 <= x && x <= 0x12b5)
                                } else {
                                    (0x12b8 <= x && x <= 0x12be)
                                        || x == 0x12c0
                                        || (0x12c2 <= x && x <= 0x12c5)
                                }
                            }
                        }
                    } else {
                        if x < 0x16ee {
                            if x < 0x13a0 {
                                if x < 0x1318 {
                                    (0x12c8 <= x && x <= 0x12d6)
                                        || (0x12d8 <= x && x <= 0x1310)
                                        || (0x1312 <= x && x <= 0x1315)
                                } else {
                                    (0x1318 <= x && x <= 0x135a)
                                        || (0x135d <= x && x <= 0x135f)
                                        || (0x1380 <= x && x <= 0x138f)
                                }
                            } else {
                                if x < 0x166f {
                                    (0x13a0 <= x && x <= 0x13f5)
                                        || (0x13f8 <= x && x <= 0x13fd)
                                        || (0x1401 <= x && x <= 0x166c)
                                } else {
                                    (0x166f <= x && x <= 0x167f)
                                        || (0x1681 <= x && x <= 0x169a)
                                        || (0x16a0 <= x && x <= 0x16ea)
                                }
                            }
                        } else {
                            if x < 0x1772 {
                                if x < 0x1740 {
                                    (0x16ee <= x && x <= 0x16f8)
                                        || (0x1700 <= x && x <= 0x1715)
                                        || (0x171f <= x && x <= 0x1734)
                                } else {
                                    (0x1740 <= x && x <= 0x1753)
                                        || (0x1760 <= x && x <= 0x176c)
                                        || (0x176e <= x && x <= 0x1770)
                                }
                            } else {
                                if x < 0x17dc {
                                    (0x1772 <= x && x <= 0x1773)
                                        || (0x1780 <= x && x <= 0x17d3)
                                        || x == 0x17d7
                                } else {
                                    (0x17dc <= x && x <= 0x17dd)
                                        || (0x17e0 <= x && x <= 0x17e9)
                                        || (0x180b <= x && x <= 0x180d)
                                        || (0x180f <= x && x <= 0x1819)
                                }
                            }
                        }
                    }
                } else {
                    if x < 0x1c80 {
                        if x < 0x1a20 {
                            if x < 0x1946 {
                                if x < 0x1900 {
                                    (0x1820 <= x && x <= 0x1878)
                                        || (0x1880 <= x && x <= 0x18aa)
                                        || (0x18b0 <= x && x <= 0x18f5)
                                } else {
                                    (0x1900 <= x && x <= 0x191e)
                                        || (0x1920 <= x && x <= 0x192b)
                                        || (0x1930 <= x && x <= 0x193b)
                                }
                            } else {
                                if x < 0x19b0 {
                                    (0x1946 <= x && x <= 0x196d)
                                        || (0x1970 <= x && x <= 0x1974)
                                        || (0x1980 <= x && x <= 0x19ab)
                                } else {
                                    (0x19b0 <= x && x <= 0x19c9)
                                        || (0x19d0 <= x && x <= 0x19d9)
                                        || (0x1a00 <= x && x <= 0x1a1b)
                                }
                            }
                        } else {
                            if x < 0x1b00 {
                                if x < 0x1a90 {
                                    (0x1a20 <= x && x <= 0x1a5e)
                                        || (0x1a60 <= x && x <= 0x1a7c)
                                        || (0x1a7f <= x && x <= 0x1a89)
                                } else {
                                    (0x1a90 <= x && x <= 0x1a99)
                                        || x == 0x1aa7
                                        || (0x1ab0 <= x && x <= 0x1ace)
                                }
                            } else {
                                if x < 0x1b80 {
                                    (0x1b00 <= x && x <= 0x1b4c)
                                        || (0x1b50 <= x && x <= 0x1b59)
                                        || (0x1b6b <= x && x <= 0x1b73)
                                } else {
                                    (0x1b80 <= x && x <= 0x1bf3)
                                        || (0x1c00 <= x && x <= 0x1c37)
                                        || (0x1c40 <= x && x <= 0x1c49)
                                        || (0x1c4d <= x && x <= 0x1c7d)
                                }
                            }
                        }
                    } else {
                        if x < 0x1f5d {
                            if x < 0x1f18 {
                                if x < 0x1cd0 {
                                    (0x1c80 <= x && x <= 0x1c8a)
                                        || (0x1c90 <= x && x <= 0x1cba)
                                        || (0x1cbd <= x && x <= 0x1cbf)
                                } else {
                                    (0x1cd0 <= x && x <= 0x1cd2)
                                        || (0x1cd4 <= x && x <= 0x1cfa)
                                        || (0x1d00 <= x && x <= 0x1f15)
                                }
                            } else {
                                if x < 0x1f50 {
                                    (0x1f18 <= x && x <= 0x1f1d)
                                        || (0x1f20 <= x && x <= 0x1f45)
                                        || (0x1f48 <= x && x <= 0x1f4d)
                                } else {
                                    (0x1f50 <= x && x <= 0x1f57)
                                        || x == 0x1f59
                                        || x == 0x1f5b
                                }
                            }
                        } else {
                            if x < 0x1fc6 {
                                if x < 0x1fb6 {
                                    x == 0x1f5d
                                        || (0x1f5f <= x && x <= 0x1f7d)
                                        || (0x1f80 <= x && x <= 0x1fb4)
                                } else {
                                    (0x1fb6 <= x && x <= 0x1fbc)
                                        || x == 0x1fbe
                                        || (0x1fc2 <= x && x <= 0x1fc4)
                                }
                            } else {
                                if x < 0x1fe0 {
                                    (0x1fc6 <= x && x <= 0x1fcc)
                                        || (0x1fd0 <= x && x <= 0x1fd3)
                                        || (0x1fd6 <= x && x <= 0x1fdb)
                                } else {
                                    (0x1fe0 <= x && x <= 0x1fec)
                                        || (0x1ff2 <= x && x <= 0x1ff4)
                                        || (0x1ff6 <= x && x <= 0x1ffc)
                                        || (0x200c <= x && x <= 0x200d)
                                }
                            }
                        }
                    }
                }
            } else {
                if x < 0x31a0 {
                    if x < 0x2d2d {
                        if x < 0x2126 {
                            if x < 0x2102 {
                                if x < 0x207f {
                                    (0x203f <= x && x <= 0x2040)
                                        || x == 0x2054
                                        || x == 0x2071
                                } else {
                                    x == 0x207f
                                        || (0x2090 <= x && x <= 0x209c)
                                        || (0x20d0 <= x && x <= 0x20f0)
                                }
                            } else {
                                if x < 0x2115 {
                                    x == 0x2102
                                        || x == 0x2107
                                        || (0x210a <= x && x <= 0x2113)
                                } else {
                                    x == 0x2115
                                        || (0x2119 <= x && x <= 0x211d)
                                        || x == 0x2124
                                }
                            }
                        } else {
                            if x < 0x214e {
                                if x < 0x212f {
                                    x == 0x2126
                                        || x == 0x2128
                                        || (0x212a <= x && x <= 0x212d)
                                } else {
                                    (0x212f <= x && x <= 0x2139)
                                        || (0x213c <= x && x <= 0x213f)
                                        || (0x2145 <= x && x <= 0x2149)
                                }
                            } else {
                                if x < 0x2c00 {
                                    x == 0x214e
                                        || (0x2160 <= x && x <= 0x2188)
                                        || (0x24b6 <= x && x <= 0x24e9)
                                } else {
                                    (0x2c00 <= x && x <= 0x2ce4)
                                        || (0x2ceb <= x && x <= 0x2cf3)
                                        || (0x2d00 <= x && x <= 0x2d25)
                                        || x == 0x2d27
                                }
                            }
                        }
                    } else {
                        if x < 0x2de0 {
                            if x < 0x2db0 {
                                if x < 0x2d7f {
                                    x == 0x2d2d
                                        || (0x2d30 <= x && x <= 0x2d67)
                                        || x == 0x2d6f
                                } else {
                                    (0x2d7f <= x && x <= 0x2d96)
                                        || (0x2da0 <= x && x <= 0x2da6)
                                        || (0x2da8 <= x && x <= 0x2dae)
                                }
                            } else {
                                if x < 0x2dc8 {
                                    (0x2db0 <= x && x <= 0x2db6)
                                        || (0x2db8 <= x && x <= 0x2dbe)
                                        || (0x2dc0 <= x && x <= 0x2dc6)
                                } else {
                                    (0x2dc8 <= x && x <= 0x2dce)
                                        || (0x2dd0 <= x && x <= 0x2dd6)
                                        || (0x2dd8 <= x && x <= 0x2dde)
                                }
                            }
                        } else {
                            if x < 0x3041 {
                                if x < 0x3021 {
                                    (0x2de0 <= x && x <= 0x2dff)
                                        || x == 0x2e2f
                                        || (0x3005 <= x && x <= 0x3007)
                                } else {
                                    (0x3021 <= x && x <= 0x302f)
                                        || (0x3031 <= x && x <= 0x3035)
                                        || (0x3038 <= x && x <= 0x303c)
                                }
                            } else {
                                if x < 0x30a1 {
                                    (0x3041 <= x && x <= 0x3096)
                                        || (0x3099 <= x && x <= 0x309a)
                                        || (0x309d <= x && x <= 0x309f)
                                } else {
                                    (0x30a1 <= x && x <= 0x30fa)
                                        || (0x30fc <= x && x <= 0x30ff)
                                        || (0x3105 <= x && x <= 0x312f)
                                        || (0x3131 <= x && x <= 0x318e)
                                }
                            }
                        }
                    }
                } else {
                    if x < 0xa960 {
                        if x < 0xa78b {
                            if x < 0xa610 {
                                if x < 0x4e00 {
                                    (0x31a0 <= x && x <= 0x31bf)
                                        || (0x31f0 <= x && x <= 0x31ff)
                                        || (0x3400 <= x && x <= 0x4dbf)
                                } else {
                                    (0x4e00 <= x && x <= 0xa48c)
                                        || (0xa4d0 <= x && x <= 0xa4fd)
                                        || (0xa500 <= x && x <= 0xa60c)
                                }
                            } else {
                                if x < 0xa67f {
                                    (0xa610 <= x && x <= 0xa62b)
                                        || (0xa640 <= x && x <= 0xa672)
                                        || (0xa674 <= x && x <= 0xa67d)
                                } else {
                                    (0xa67f <= x && x <= 0xa6f1)
                                        || (0xa717 <= x && x <= 0xa71f)
                                        || (0xa722 <= x && x <= 0xa788)
                                }
                            }
                        } else {
                            if x < 0xa840 {
                                if x < 0xa7d5 {
                                    (0xa78b <= x && x <= 0xa7cd)
                                        || (0xa7d0 <= x && x <= 0xa7d1)
                                        || x == 0xa7d3
                                } else {
                                    (0xa7d5 <= x && x <= 0xa7dc)
                                        || (0xa7f2 <= x && x <= 0xa827)
                                        || x == 0xa82c
                                }
                            } else {
                                if x < 0xa8e0 {
                                    (0xa840 <= x && x <= 0xa873)
                                        || (0xa880 <= x && x <= 0xa8c5)
                                        || (0xa8d0 <= x && x <= 0xa8d9)
                                } else {
                                    (0xa8e0 <= x && x <= 0xa8f7)
                                        || x == 0xa8fb
                                        || (0xa8fd <= x && x <= 0xa92d)
                                        || (0xa930 <= x && x <= 0xa953)
                                }
                            }
                        }
                    } else {
                        if x < 0xab01 {
                            if x < 0xaa50 {
                                if x < 0xa9e0 {
                                    (0xa960 <= x && x <= 0xa97c)
                                        || (0xa980 <= x && x <= 0xa9c0)
                                        || (0xa9cf <= x && x <= 0xa9d9)
                                } else {
                                    (0xa9e0 <= x && x <= 0xa9fe)
                                        || (0xaa00 <= x && x <= 0xaa36)
                                        || (0xaa40 <= x && x <= 0xaa4d)
                                }
                            } else {
                                if x < 0xaadb {
                                    (0xaa50 <= x && x <= 0xaa59)
                                        || (0xaa60 <= x && x <= 0xaa76)
                                        || (0xaa7a <= x && x <= 0xaac2)
                                } else {
                                    (0xaadb <= x && x <= 0xaadd)
                                        || (0xaae0 <= x && x <= 0xaaef)
                                        || (0xaaf2 <= x && x <= 0xaaf6)
                                }
                            }
                        } else {
                            if x < 0xab5c {
                                if x < 0xab20 {
                                    (0xab01 <= x && x <= 0xab06)
                                        || (0xab09 <= x && x <= 0xab0e)
                                        || (0xab11 <= x && x <= 0xab16)
                                } else {
                                    (0xab20 <= x && x <= 0xab26)
                                        || (0xab28 <= x && x <= 0xab2e)
                                        || (0xab30 <= x && x <= 0xab5a)
                                }
                            } else {
                                if x < 0xabf0 {
                                    (0xab5c <= x && x <= 0xab69)
                                        || (0xab70 <= x && x <= 0xabea)
                                        || (0xabec <= x && x <= 0xabed)
                                } else {
                                    (0xabf0 <= x && x <= 0xabf9)
                                        || (0xac00 <= x && x <= 0xd7a3)
                                        || (0xd7b0 <= x && x <= 0xd7c6)
                                        || (0xd7cb <= x && x <= 0xd7fb)
                                }
                            }
                        }
                    }
                }
            }
        }
    } else {
        if x < 0x119e3 {
            if x < 0x10c00 {
                if x < 0x10400 {
                    if x < 0xff41 {
                        if x < 0xfd50 {
                            if x < 0xfb38 {
                                if x < 0xfb13 {
                                    (0xf900 <= x && x <= 0xfa6d)
                                        || (0xfa70 <= x && x <= 0xfad9)
                                        || (0xfb00 <= x && x <= 0xfb06)
                                } else {
                                    (0xfb13 <= x && x <= 0xfb17)
                                        || (0xfb1d <= x && x <= 0xfb28)
                                        || (0xfb2a <= x && x <= 0xfb36)
                                }
                            } else {
                                if x < 0xfb43 {
                                    (0xfb38 <= x && x <= 0xfb3c)
                                        || x == 0xfb3e
                                        || (0xfb40 <= x && x <= 0xfb41)
                                } else {
                                    (0xfb43 <= x && x <= 0xfb44)
                                        || (0xfb46 <= x && x <= 0xfbb1)
                                        || (0xfbd3 <= x && x <= 0xfd3d)
                                }
                            }
                        } else {
                            if x < 0xfe4d {
                                if x < 0xfe00 {
                                    (0xfd50 <= x && x <= 0xfd8f)
                                        || (0xfd92 <= x && x <= 0xfdc7)
                                        || (0xfdf0 <= x && x <= 0xfdfb)
                                } else {
                                    (0xfe00 <= x && x <= 0xfe0f)
                                        || (0xfe20 <= x && x <= 0xfe2f)
                                        || (0xfe33 <= x && x <= 0xfe34)
                                }
                            } else {
                                if x < 0xff10 {
                                    (0xfe4d <= x && x <= 0xfe4f)
                                        || (0xfe70 <= x && x <= 0xfe74)
                                        || (0xfe76 <= x && x <= 0xfefc)
                                } else {
                                    (0xff10 <= x && x <= 0xff19)
                                        || (0xff21 <= x && x <= 0xff3a)
                                        || x == 0xff3f
                                }
                            }
                        }
                    } else {
                        if x < 0x10080 {
                            if x < 0x10000 {
                                if x < 0xffca {
                                    (0xff41 <= x && x <= 0xff5a)
                                        || (0xff66 <= x && x <= 0xffbe)
                                        || (0xffc2 <= x && x <= 0xffc7)
                                } else {
                                    (0xffca <= x && x <= 0xffcf)
                                        || (0xffd2 <= x && x <= 0xffd7)
                                        || (0xffda <= x && x <= 0xffdc)
                                }
                            } else {
                                if x < 0x1003c {
                                    (0x10000 <= x && x <= 0x1000b)
                                        || (0x1000d <= x && x <= 0x10026)
                                        || (0x10028 <= x && x <= 0x1003a)
                                } else {
                                    (0x1003c <= x && x <= 0x1003d)
                                        || (0x1003f <= x && x <= 0x1004d)
                                        || (0x10050 <= x && x <= 0x1005d)
                                }
                            }
                        } else {
                            if x < 0x10300 {
                                if x < 0x10280 {
                                    (0x10080 <= x && x <= 0x100fa)
                                        || (0x10140 <= x && x <= 0x10174)
                                        || x == 0x101fd
                                } else {
                                    (0x10280 <= x && x <= 0x1029c)
                                        || (0x102a0 <= x && x <= 0x102d0)
                                        || x == 0x102e0
                                }
                            } else {
                                if x < 0x10380 {
                                    (0x10300 <= x && x <= 0x1031f)
                                        || (0x1032d <= x && x <= 0x1034a)
                                        || (0x10350 <= x && x <= 0x1037a)
                                } else {
                                    (0x10380 <= x && x <= 0x1039d)
                                        || (0x103a0 <= x && x <= 0x103c3)
                                        || (0x103c8 <= x && x <= 0x103cf)
                                        || (0x103d1 <= x && x <= 0x103d5)
                                }
                            }
                        }
                    }
                } else {
                    if x < 0x1083c {
                        if x < 0x105b3 {
                            if x < 0x10570 {
                                if x < 0x104d8 {
                                    (0x10400 <= x && x <= 0x1049d)
                                        || (0x104a0 <= x && x <= 0x104a9)
                                        || (0x104b0 <= x && x <= 0x104d3)
                                } else {
                                    (0x104d8 <= x && x <= 0x104fb)
                                        || (0x10500 <= x && x <= 0x10527)
                                        || (0x10530 <= x && x <= 0x10563)
                                }
                            } else {
                                if x < 0x10594 {
                                    (0x10570 <= x && x <= 0x1057a)
                                        || (0x1057c <= x && x <= 0x1058a)
                                        || (0x1058c <= x && x <= 0x10592)
                                } else {
                                    (0x10594 <= x && x <= 0x10595)
                                        || (0x10597 <= x && x <= 0x105a1)
                                        || (0x105a3 <= x && x <= 0x105b1)
                                }
                            }
                        } else {
                            if x < 0x10780 {
                                if x < 0x10600 {
                                    (0x105b3 <= x && x <= 0x105b9)
                                        || (0x105bb <= x && x <= 0x105bc)
                                        || (0x105c0 <= x && x <= 0x105f3)
                                } else {
                                    (0x10600 <= x && x <= 0x10736)
                                        || (0x10740 <= x && x <= 0x10755)
                                        || (0x10760 <= x && x <= 0x10767)
                                }
                            } else {
                                if x < 0x10800 {
                                    (0x10780 <= x && x <= 0x10785)
                                        || (0x10787 <= x && x <= 0x107b0)
                                        || (0x107b2 <= x && x <= 0x107ba)
                                } else {
                                    (0x10800 <= x && x <= 0x10805)
                                        || x == 0x10808
                                        || (0x1080a <= x && x <= 0x10835)
                                        || (0x10837 <= x && x <= 0x10838)
                                }
                            }
                        }
                    } else {
                        if x < 0x10a0c {
                            if x < 0x10900 {
                                if x < 0x10880 {
                                    x == 0x1083c
                                        || (0x1083f <= x && x <= 0x10855)
                                        || (0x10860 <= x && x <= 0x10876)
                                } else {
                                    (0x10880 <= x && x <= 0x1089e)
                                        || (0x108e0 <= x && x <= 0x108f2)
                                        || (0x108f4 <= x && x <= 0x108f5)
                                }
                            } else {
                                if x < 0x109be {
                                    (0x10900 <= x && x <= 0x10915)
                                        || (0x10920 <= x && x <= 0x10939)
                                        || (0x10980 <= x && x <= 0x109b7)
                                } else {
                                    (0x109be <= x && x <= 0x109bf)
                                        || (0x10a00 <= x && x <= 0x10a03)
                                        || (0x10a05 <= x && x <= 0x10a06)
                                }
                            }
                        } else {
                            if x < 0x10a80 {
                                if x < 0x10a38 {
                                    (0x10a0c <= x && x <= 0x10a13)
                                        || (0x10a15 <= x && x <= 0x10a17)
                                        || (0x10a19 <= x && x <= 0x10a35)
                                } else {
                                    (0x10a38 <= x && x <= 0x10a3a)
                                        || x == 0x10a3f
                                        || (0x10a60 <= x && x <= 0x10a7c)
                                }
                            } else {
                                if x < 0x10b00 {
                                    (0x10a80 <= x && x <= 0x10a9c)
                                        || (0x10ac0 <= x && x <= 0x10ac7)
                                        || (0x10ac9 <= x && x <= 0x10ae6)
                                } else {
                                    (0x10b00 <= x && x <= 0x10b35)
                                        || (0x10b40 <= x && x <= 0x10b55)
                                        || (0x10b60 <= x && x <= 0x10b72)
                                        || (0x10b80 <= x && x <= 0x10b91)
                                }
                            }
                        }
                    }
                }
            } else {
                if x < 0x1133b {
                    if x < 0x11136 {
                        if x < 0x10efc {
                            if x < 0x10d69 {
                                if x < 0x10d00 {
                                    (0x10c00 <= x && x <= 0x10c48)
                                        || (0x10c80 <= x && x <= 0x10cb2)
                                        || (0x10cc0 <= x && x <= 0x10cf2)
                                } else {
                                    (0x10d00 <= x && x <= 0x10d27)
                                        || (0x10d30 <= x && x <= 0x10d39)
                                        || (0x10d40 <= x && x <= 0x10d65)
                                }
                            } else {
                                if x < 0x10eab {
                                    (0x10d69 <= x && x <= 0x10d6d)
                                        || (0x10d6f <= x && x <= 0x10d85)
                                        || (0x10e80 <= x && x <= 0x10ea9)
                                } else {
                                    (0x10eab <= x && x <= 0x10eac)
                                        || (0x10eb0 <= x && x <= 0x10eb1)
                                        || (0x10ec2 <= x && x <= 0x10ec4)
                                }
                            }
                        } else {
                            if x < 0x11000 {
                                if x < 0x10f70 {
                                    (0x10efc <= x && x <= 0x10f1c)
                                        || x == 0x10f27
                                        || (0x10f30 <= x && x <= 0x10f50)
                                } else {
                                    (0x10f70 <= x && x <= 0x10f85)
                                        || (0x10fb0 <= x && x <= 0x10fc4)
                                        || (0x10fe0 <= x && x <= 0x10ff6)
                                }
                            } else {
                                if x < 0x110c2 {
                                    (0x11000 <= x && x <= 0x11046)
                                        || (0x11066 <= x && x <= 0x11075)
                                        || (0x1107f <= x && x <= 0x110ba)
                                } else {
                                    x == 0x110c2
                                        || (0x110d0 <= x && x <= 0x110e8)
                                        || (0x110f0 <= x && x <= 0x110f9)
                                        || (0x11100 <= x && x <= 0x11134)
                                }
                            }
                        }
                    } else {
                        if x < 0x11288 {
                            if x < 0x111ce {
                                if x < 0x11176 {
                                    (0x11136 <= x && x <= 0x1113f)
                                        || (0x11144 <= x && x <= 0x11147)
                                        || (0x11150 <= x && x <= 0x11173)
                                } else {
                                    x == 0x11176
                                        || (0x11180 <= x && x <= 0x111c4)
                                        || (0x111c9 <= x && x <= 0x111cc)
                                }
                            } else {
                                if x < 0x11213 {
                                    (0x111ce <= x && x <= 0x111da)
                                        || x == 0x111dc
                                        || (0x11200 <= x && x <= 0x11211)
                                } else {
                                    (0x11213 <= x && x <= 0x11237)
                                        || (0x1123e <= x && x <= 0x11241)
                                        || (0x11280 <= x && x <= 0x11286)
                                }
                            }
                        } else {
                            if x < 0x11300 {
                                if x < 0x1129f {
                                    x == 0x11288
                                        || (0x1128a <= x && x <= 0x1128d)
                                        || (0x1128f <= x && x <= 0x1129d)
                                } else {
                                    (0x1129f <= x && x <= 0x112a8)
                                        || (0x112b0 <= x && x <= 0x112ea)
                                        || (0x112f0 <= x && x <= 0x112f9)
                                }
                            } else {
                                if x < 0x11313 {
                                    (0x11300 <= x && x <= 0x11303)
                                        || (0x11305 <= x && x <= 0x1130c)
                                        || (0x1130f <= x && x <= 0x11310)
                                } else {
                                    (0x11313 <= x && x <= 0x11328)
                                        || (0x1132a <= x && x <= 0x11330)
                                        || (0x11332 <= x && x <= 0x11333)
                                        || (0x11335 <= x && x <= 0x11339)
                                }
                            }
                        }
                    }
                } else {
                    if x < 0x115b8 {
                        if x < 0x113b7 {
                            if x < 0x11366 {
                                if x < 0x11350 {
                                    (0x1133b <= x && x <= 0x11344)
                                        || (0x11347 <= x && x <= 0x11348)
                                        || (0x1134b <= x && x <= 0x1134d)
                                } else {
                                    x == 0x11350
                                        || x == 0x11357
                                        || (0x1135d <= x && x <= 0x11363)
                                }
                            } else {
                                if x < 0x1138b {
                                    (0x11366 <= x && x <= 0x1136c)
                                        || (0x11370 <= x && x <= 0x11374)
                                        || (0x11380 <= x && x <= 0x11389)
                                } else {
                                    x == 0x1138b
                                        || x == 0x1138e
                                        || (0x11390 <= x && x <= 0x113b5)
                                }
                            }
                        } else {
                            if x < 0x11400 {
                                if x < 0x113c7 {
                                    (0x113b7 <= x && x <= 0x113c0)
                                        || x == 0x113c2
                                        || x == 0x113c5
                                } else {
                                    (0x113c7 <= x && x <= 0x113ca)
                                        || (0x113cc <= x && x <= 0x113d3)
                                        || (0x113e1 <= x && x <= 0x113e2)
                                }
                            } else {
                                if x < 0x11480 {
                                    (0x11400 <= x && x <= 0x1144a)
                                        || (0x11450 <= x && x <= 0x11459)
                                        || (0x1145e <= x && x <= 0x11461)
                                } else {
                                    (0x11480 <= x && x <= 0x114c5)
                                        || x == 0x114c7
                                        || (0x114d0 <= x && x <= 0x114d9)
                                        || (0x11580 <= x && x <= 0x115b5)
                                }
                            }
                        }
                    } else {
                        if x < 0x11800 {
                            if x < 0x116c0 {
                                if x < 0x11644 {
                                    (0x115b8 <= x && x <= 0x115c0)
                                        || (0x115d8 <= x && x <= 0x115dd)
                                        || (0x11600 <= x && x <= 0x11640)
                                } else {
                                    x == 0x11644
                                        || (0x11650 <= x && x <= 0x11659)
                                        || (0x11680 <= x && x <= 0x116b8)
                                }
                            } else {
                                if x < 0x1171d {
                                    (0x116c0 <= x && x <= 0x116c9)
                                        || (0x116d0 <= x && x <= 0x116e3)
                                        || (0x11700 <= x && x <= 0x1171a)
                                } else {
                                    (0x1171d <= x && x <= 0x1172b)
                                        || (0x11730 <= x && x <= 0x11739)
                                        || (0x11740 <= x && x <= 0x11746)
                                }
                            }
                        } else {
                            if x < 0x11918 {
                                if x < 0x11909 {
                                    (0x11800 <= x && x <= 0x1183a)
                                        || (0x118a0 <= x && x <= 0x118e9)
                                        || (0x118ff <= x && x <= 0x11906)
                                } else {
                                    x == 0x11909
                                        || (0x1190c <= x && x <= 0x11913)
                                        || (0x11915 <= x && x <= 0x11916)
                                }
                            } else {
                                if x < 0x11950 {
                                    (0x11918 <= x && x <= 0x11935)
                                        || (0x11937 <= x && x <= 0x11938)
                                        || (0x1193b <= x && x <= 0x11943)
                                } else {
                                    (0x11950 <= x && x <= 0x11959)
                                        || (0x119a0 <= x && x <= 0x119a7)
                                        || (0x119aa <= x && x <= 0x119d7)
                                        || (0x119da <= x && x <= 0x119e1)
                                }
                            }
                        }
                    }
                }
            }
        } else {
            if x < 0x1d4c5 {
                if x < 0x16af0 {
                    if x < 0x11d6a {
                        if x < 0x11c72 {
                            if x < 0x11bc0 {
                                if x < 0x11a50 {
                                    (0x119e3 <= x && x <= 0x119e4)
                                        || (0x11a00 <= x && x <= 0x11a3e)
                                        || x == 0x11a47
                                } else {
                                    (0x11a50 <= x && x <= 0x11a99)
                                        || x == 0x11a9d
                                        || (0x11ab0 <= x && x <= 0x11af8)
                                }
                            } else {
                                if x < 0x11c0a {
                                    (0x11bc0 <= x && x <= 0x11be0)
                                        || (0x11bf0 <= x && x <= 0x11bf9)
                                        || (0x11c00 <= x && x <= 0x11c08)
                                } else {
                                    (0x11c0a <= x && x <= 0x11c36)
                                        || (0x11c38 <= x && x <= 0x11c40)
                                        || (0x11c50 <= x && x <= 0x11c59)
                                }
                            }
                        } else {
                            if x < 0x11d3a {
                                if x < 0x11d00 {
                                    (0x11c72 <= x && x <= 0x11c8f)
                                        || (0x11c92 <= x && x <= 0x11ca7)
                                        || (0x11ca9 <= x && x <= 0x11cb6)
                                } else {
                                    (0x11d00 <= x && x <= 0x11d06)
                                        || (0x11d08 <= x && x <= 0x11d09)
                                        || (0x11d0b <= x && x <= 0x11d36)
                                }
                            } else {
                                if x < 0x11d50 {
                                    x == 0x11d3a
                                        || (0x11d3c <= x && x <= 0x11d3d)
                                        || (0x11d3f <= x && x <= 0x11d47)
                                } else {
                                    (0x11d50 <= x && x <= 0x11d59)
                                        || (0x11d60 <= x && x <= 0x11d65)
                                        || (0x11d67 <= x && x <= 0x11d68)
                                }
                            }
                        }
                    } else {
                        if x < 0x12480 {
                            if x < 0x11f12 {
                                if x < 0x11da0 {
                                    (0x11d6a <= x && x <= 0x11d8e)
                                        || (0x11d90 <= x && x <= 0x11d91)
                                        || (0x11d93 <= x && x <= 0x11d98)
                                } else {
                                    (0x11da0 <= x && x <= 0x11da9)
                                        || (0x11ee0 <= x && x <= 0x11ef6)
                                        || (0x11f00 <= x && x <= 0x11f10)
                                }
                            } else {
                                if x < 0x11fb0 {
                                    (0x11f12 <= x && x <= 0x11f3a)
                                        || (0x11f3e <= x && x <= 0x11f42)
                                        || (0x11f50 <= x && x <= 0x11f5a)
                                } else {
                                    x == 0x11fb0
                                        || (0x12000 <= x && x <= 0x12399)
                                        || (0x12400 <= x && x <= 0x1246e)
                                }
                            }
                        } else {
                            if x < 0x16100 {
                                if x < 0x13440 {
                                    (0x12480 <= x && x <= 0x12543)
                                        || (0x12f90 <= x && x <= 0x12ff0)
                                        || (0x13000 <= x && x <= 0x1342f)
                                } else {
                                    (0x13440 <= x && x <= 0x13455)
                                        || (0x13460 <= x && x <= 0x143fa)
                                        || (0x14400 <= x && x <= 0x14646)
                                }
                            } else {
                                if x < 0x16a60 {
                                    (0x16100 <= x && x <= 0x16139)
                                        || (0x16800 <= x && x <= 0x16a38)
                                        || (0x16a40 <= x && x <= 0x16a5e)
                                } else {
                                    (0x16a60 <= x && x <= 0x16a69)
                                        || (0x16a70 <= x && x <= 0x16abe)
                                        || (0x16ac0 <= x && x <= 0x16ac9)
                                        || (0x16ad0 <= x && x <= 0x16aed)
                                }
                            }
                        }
                    }
                } else {
                    if x < 0x1b164 {
                        if x < 0x16fe0 {
                            if x < 0x16d40 {
                                if x < 0x16b50 {
                                    (0x16af0 <= x && x <= 0x16af4)
                                        || (0x16b00 <= x && x <= 0x16b36)
                                        || (0x16b40 <= x && x <= 0x16b43)
                                } else {
                                    (0x16b50 <= x && x <= 0x16b59)
                                        || (0x16b63 <= x && x <= 0x16b77)
                                        || (0x16b7d <= x && x <= 0x16b8f)
                                }
                            } else {
                                if x < 0x16f00 {
                                    (0x16d40 <= x && x <= 0x16d6c)
                                        || (0x16d70 <= x && x <= 0x16d79)
                                        || (0x16e40 <= x && x <= 0x16e7f)
                                } else {
                                    (0x16f00 <= x && x <= 0x16f4a)
                                        || (0x16f4f <= x && x <= 0x16f87)
                                        || (0x16f8f <= x && x <= 0x16f9f)
                                }
                            }
                        } else {
                            if x < 0x1aff0 {
                                if x < 0x17000 {
                                    (0x16fe0 <= x && x <= 0x16fe1)
                                        || (0x16fe3 <= x && x <= 0x16fe4)
                                        || (0x16ff0 <= x && x <= 0x16ff1)
                                } else {
                                    (0x17000 <= x && x <= 0x187f7)
                                        || (0x18800 <= x && x <= 0x18cd5)
                                        || (0x18cff <= x && x <= 0x18d08)
                                }
                            } else {
                                if x < 0x1b000 {
                                    (0x1aff0 <= x && x <= 0x1aff3)
                                        || (0x1aff5 <= x && x <= 0x1affb)
                                        || (0x1affd <= x && x <= 0x1affe)
                                } else {
                                    (0x1b000 <= x && x <= 0x1b122)
                                        || x == 0x1b132
                                        || (0x1b150 <= x && x <= 0x1b152)
                                        || x == 0x1b155
                                }
                            }
                        }
                    } else {
                        if x < 0x1d17b {
                            if x < 0x1bc9d {
                                if x < 0x1bc70 {
                                    (0x1b164 <= x && x <= 0x1b167)
                                        || (0x1b170 <= x && x <= 0x1b2fb)
                                        || (0x1bc00 <= x && x <= 0x1bc6a)
                                } else {
                                    (0x1bc70 <= x && x <= 0x1bc7c)
                                        || (0x1bc80 <= x && x <= 0x1bc88)
                                        || (0x1bc90 <= x && x <= 0x1bc99)
                                }
                            } else {
                                if x < 0x1cf30 {
                                    (0x1bc9d <= x && x <= 0x1bc9e)
                                        || (0x1ccf0 <= x && x <= 0x1ccf9)
                                        || (0x1cf00 <= x && x <= 0x1cf2d)
                                } else {
                                    (0x1cf30 <= x && x <= 0x1cf46)
                                        || (0x1d165 <= x && x <= 0x1d169)
                                        || (0x1d16d <= x && x <= 0x1d172)
                                }
                            }
                        } else {
                            if x < 0x1d49e {
                                if x < 0x1d242 {
                                    (0x1d17b <= x && x <= 0x1d182)
                                        || (0x1d185 <= x && x <= 0x1d18b)
                                        || (0x1d1aa <= x && x <= 0x1d1ad)
                                } else {
                                    (0x1d242 <= x && x <= 0x1d244)
                                        || (0x1d400 <= x && x <= 0x1d454)
                                        || (0x1d456 <= x && x <= 0x1d49c)
                                }
                            } else {
                                if x < 0x1d4a9 {
                                    (0x1d49e <= x && x <= 0x1d49f)
                                        || x == 0x1d4a2
                                        || (0x1d4a5 <= x && x <= 0x1d4a6)
                                } else {
                                    (0x1d4a9 <= x && x <= 0x1d4ac)
                                        || (0x1d4ae <= x && x <= 0x1d4b9)
                                        || x == 0x1d4bb
                                        || (0x1d4bd <= x && x <= 0x1d4c3)
                                }
                            }
                        }
                    }
                }
            } else {
                if x < 0x1e8d0 {
                    if x < 0x1da84 {
                        if x < 0x1d6dc {
                            if x < 0x1d540 {
                                if x < 0x1d516 {
                                    (0x1d4c5 <= x && x <= 0x1d505)
                                        || (0x1d507 <= x && x <= 0x1d50a)
                                        || (0x1d50d <= x && x <= 0x1d514)
                                } else {
                                    (0x1d516 <= x && x <= 0x1d51c)
                                        || (0x1d51e <= x && x <= 0x1d539)
                                        || (0x1d53b <= x && x <= 0x1d53e)
                                }
                            } else {
                                if x < 0x1d552 {
                                    (0x1d540 <= x && x <= 0x1d544)
                                        || x == 0x1d546
                                        || (0x1d54a <= x && x <= 0x1d550)
                                } else {
                                    (0x1d552 <= x && x <= 0x1d6a5)
                                        || (0x1d6a8 <= x && x <= 0x1d6c0)
                                        || (0x1d6c2 <= x && x <= 0x1d6da)
                                }
                            }
                        } else {
                            if x < 0x1d78a {
                                if x < 0x1d736 {
                                    (0x1d6dc <= x && x <= 0x1d6fa)
                                        || (0x1d6fc <= x && x <= 0x1d714)
                                        || (0x1d716 <= x && x <= 0x1d734)
                                } else {
                                    (0x1d736 <= x && x <= 0x1d74e)
                                        || (0x1d750 <= x && x <= 0x1d76e)
                                        || (0x1d770 <= x && x <= 0x1d788)
                                }
                            } else {
                                if x < 0x1d7ce {
                                    (0x1d78a <= x && x <= 0x1d7a8)
                                        || (0x1d7aa <= x && x <= 0x1d7c2)
                                        || (0x1d7c4 <= x && x <= 0x1d7cb)
                                } else {
                                    (0x1d7ce <= x && x <= 0x1d7ff)
                                        || (0x1da00 <= x && x <= 0x1da36)
                                        || (0x1da3b <= x && x <= 0x1da6c)
                                        || x == 0x1da75
                                }
                            }
                        }
                    } else {
                        if x < 0x1e100 {
                            if x < 0x1e008 {
                                if x < 0x1df00 {
                                    x == 0x1da84
                                        || (0x1da9b <= x && x <= 0x1da9f)
                                        || (0x1daa1 <= x && x <= 0x1daaf)
                                } else {
                                    (0x1df00 <= x && x <= 0x1df1e)
                                        || (0x1df25 <= x && x <= 0x1df2a)
                                        || (0x1e000 <= x && x <= 0x1e006)
                                }
                            } else {
                                if x < 0x1e026 {
                                    (0x1e008 <= x && x <= 0x1e018)
                                        || (0x1e01b <= x && x <= 0x1e021)
                                        || (0x1e023 <= x && x <= 0x1e024)
                                } else {
                                    (0x1e026 <= x && x <= 0x1e02a)
                                        || (0x1e030 <= x && x <= 0x1e06d)
                                        || x == 0x1e08f
                                }
                            }
                        } else {
                            if x < 0x1e4d0 {
                                if x < 0x1e14e {
                                    (0x1e100 <= x && x <= 0x1e12c)
                                        || (0x1e130 <= x && x <= 0x1e13d)
                                        || (0x1e140 <= x && x <= 0x1e149)
                                } else {
                                    x == 0x1e14e
                                        || (0x1e290 <= x && x <= 0x1e2ae)
                                        || (0x1e2c0 <= x && x <= 0x1e2f9)
                                }
                            } else {
                                if x < 0x1e7e8 {
                                    (0x1e4d0 <= x && x <= 0x1e4f9)
                                        || (0x1e5d0 <= x && x <= 0x1e5fa)
                                        || (0x1e7e0 <= x && x <= 0x1e7e6)
                                } else {
                                    (0x1e7e8 <= x && x <= 0x1e7eb)
                                        || (0x1e7ed <= x && x <= 0x1e7ee)
                                        || (0x1e7f0 <= x && x <= 0x1e7fe)
                                        || (0x1e800 <= x && x <= 0x1e8c4)
                                }
                            }
                        }
                    }
                } else {
                    if x < 0x1ee64 {
                        if x < 0x1ee42 {
                            if x < 0x1ee24 {
                                if x < 0x1ee00 {
                                    (0x1e8d0 <= x && x <= 0x1e8d6)
                                        || (0x1e900 <= x && x <= 0x1e94b)
                                        || (0x1e950 <= x && x <= 0x1e959)
                                } else {
                                    (0x1ee00 <= x && x <= 0x1ee03)
                                        || (0x1ee05 <= x && x <= 0x1ee1f)
                                        || (0x1ee21 <= x && x <= 0x1ee22)
                                }
                            } else {
                                if x < 0x1ee34 {
                                    x == 0x1ee24
                                        || x == 0x1ee27
                                        || (0x1ee29 <= x && x <= 0x1ee32)
                                } else {
                                    (0x1ee34 <= x && x <= 0x1ee37)
                                        || x == 0x1ee39
                                        || x == 0x1ee3b
                                }
                            }
                        } else {
                            if x < 0x1ee54 {
                                if x < 0x1ee4b {
                                    x == 0x1ee42
                                        || x == 0x1ee47
                                        || x == 0x1ee49
                                } else {
                                    x == 0x1ee4b
                                        || (0x1ee4d <= x && x <= 0x1ee4f)
                                        || (0x1ee51 <= x && x <= 0x1ee52)
                                }
                            } else {
                                if x < 0x1ee5b {
                                    x == 0x1ee54
                                        || x == 0x1ee57
                                        || x == 0x1ee59
                                } else {
                                    x == 0x1ee5b
                                        || x == 0x1ee5d
                                        || x == 0x1ee5f
                                        || (0x1ee61 <= x && x <= 0x1ee62)
                                }
                            }
                        }
                    } else {
                        if x < 0x1f150 {
                            if x < 0x1ee80 {
                                if x < 0x1ee74 {
                                    x == 0x1ee64
                                        || (0x1ee67 <= x && x <= 0x1ee6a)
                                        || (0x1ee6c <= x && x <= 0x1ee72)
                                } else {
                                    (0x1ee74 <= x && x <= 0x1ee77)
                                        || (0x1ee79 <= x && x <= 0x1ee7c)
                                        || x == 0x1ee7e
                                }
                            } else {
                                if x < 0x1eea5 {
                                    (0x1ee80 <= x && x <= 0x1ee89)
                                        || (0x1ee8b <= x && x <= 0x1ee9b)
                                        || (0x1eea1 <= x && x <= 0x1eea3)
                                } else {
                                    (0x1eea5 <= x && x <= 0x1eea9)
                                        || (0x1eeab <= x && x <= 0x1eebb)
                                        || (0x1f130 <= x && x <= 0x1f149)
                                }
                            }
                        } else {
                            if x < 0x2b820 {
                                if x < 0x20000 {
                                    (0x1f150 <= x && x <= 0x1f169)
                                        || (0x1f170 <= x && x <= 0x1f189)
                                        || (0x1fbf0 <= x && x <= 0x1fbf9)
                                } else {
                                    (0x20000 <= x && x <= 0x2a6df)
                                        || (0x2a700 <= x && x <= 0x2b739)
                                        || (0x2b740 <= x && x <= 0x2b81d)
                                }
                            } else {
                                if x < 0x2f800 {
                                    (0x2b820 <= x && x <= 0x2cea1)
                                        || (0x2ceb0 <= x && x <= 0x2ebe0)
                                        || (0x2ebf0 <= x && x <= 0x2ee5d)
                                } else {
                                    (0x2f800 <= x && x <= 0x2fa1d)
                                        || (0x30000 <= x && x <= 0x3134a)
                                        || (0x31350 <= x && x <= 0x323af)
                                        || (0xe0100 <= x && x <= 0xe01ef)
                                }
                            }
                        }
                    }
                }
            }
        }
    }
}

/// Executable form of [`is_word`].
pub fn is_word_exec(c: char) -> (r: bool)
    ensures
        r == is_word(c),
{
    proof { reveal(is_word); }
    let x = c as u32;
    if x < 0xf900 {
        if x < 0xf3e {
            if x < 0xae6 {
                if x < 0x860 {
                    if x < 0x483 {
                        if x < 0x2ec {
                            if x < 0xba {
                                if x < 0x61 {
                                    (0x30 <= x && x <= 0x39)
                                        || (0x41 <= x && x <= 0x5a)
                                        || x == 0x5f
                                } else {
                                    (0x61 <= x && x <= 0x7a)
                                        || x == 0xaa
                                        || x == 0xb5
                                }
                            } else {
                                if x < 0xf8 {
                                    x == 0xba
                                        || (0xc0 <= x && x <= 0xd6)
                                        || (0xd8 <= x && x <= 0xf6)
                                } else {
                                    (0xf8 <= x && x <= 0x2c1)
                                        || (0x2c6 <= x && x <= 0x2d1)
                                        || (0x2e0 <= x && x <= 0x2e4)
                                }
                            }
                        } else {
                            if x < 0x386 {
                                if x < 0x376 {
                                    x == 0x2ec
                                        || x == 0x2ee
                                        || (0x300 <= x && x <= 0x374)
                                } else {
                                    (0x376 <= x && x <= 0x377)
                                        || (0x37a <= x && x <= 0x37d)
                                        || x == 0x37f
                                }
                            } else {
                                if x < 0x38e {
                                    x == 0x386
                                        || (0x388 <= x && x <= 0x38a)
                                        || x == 0x38c
                                } else {
                                    (0x38e <= x && x <= 0x3a1)
                                        || (0x3a3 <= x && x <= 0x3f5)
                                        || (0x3f7 <= x && x <= 0x481)
                                }
                            }
                        }
                    } else {
                        if x < 0x620 {
                            if x < 0x5c1 {
                                if x < 0x560 {
                                    (0x483 <= x && x <= 0x52f)
                                        || (0x531 <= x && x <= 0x556)
                                        || x == 0x559
                                } else {
                                    (0x560 <= x && x <= 0x588)
                                        || (0x591 <= x && x <= 0x5bd)
                                        || x == 0x5bf
                                }
                            } else {
                                if x < 0x5d0 {
                                    (0x5c1 <= x && x <= 0x5c2)
                                        || (0x5c4 <= x && x <= 0x5c5)
                                        || x == 0x5c7
                                } else {
                                    (0x5d0 <= x && x <= 0x5ea)
                                        || (0x5ef <= x && x <= 0x5f2)
                                        || (0x610 <= x && x <= 0x61a)
                                }
                            }
                        } else {
                            if x < 0x710 {
                                if x < 0x6df {
                                    (0x620 <= x && x <= 0x669)
                                        || (0x66e <= x && x <= 0x6d3)
                                        || (0x6d5 <= x && x <= 0x6dc)
                                } else {
                                    (0x6df <= x && x <= 0x6e8)
                                        || (0x6ea <= x && x <= 0x6fc)
                                        || x == 0x6ff
                                }
                            } else {
                                if x < 0x7fa {
                                    (0x710 <= x && x <= 0x74a)
                                        || (0x74d <= x && x <= 0x7b1)
                                        || (0x7c0 <= x && x <= 0x7f5)
                                } else {
                                    x == 0x7fa
                                        || x == 0x7fd
                                        || (0x800 <= x && x <= 0x82d)
                                        || (0x840 <= x && x <= 0x85b)
                                }
                            }
                        }
                    }
                } else {
                    if x < 0xa13 {
                        if x < 0x9b6 {
                            if x < 0x971 {
                                if x < 0x897 {
                                    (0x860 <= x && x <= 0x86a)
                                        || (0x870 <= x && x <= 0x887)
                                        || (0x889 <= x && x <= 0x88e)
                                } else {
                                    (0x897 <= x && x <= 0x8e1)
                                        || (0x8e3 <= x && x <= 0x963)
                                        || (0x966 <= x && x <= 0x96f)
                                }
                            } else {
                                if x < 0x993 {
                                    (0x971 <= x && x <= 0x983)
                                        || (0x985 <= x && x <= 0x98c)
                                        || (0x98f <= x && x <= 0x990)
                                } else {
                                    (0x993 <= x && x <= 0x9a8)
                                        || (0x9aa <= x && x <= 0x9b0)
                                        || x == 0x9b2
                                }
                            }
                        } else {
                            if x < 0x9df {
                                if x < 0x9cb {
                                    (0x9b6 <= x && x <= 0x9b9)
                                        || (0x9bc <= x && x <= 0x9c4)
                                        || (0x9c7 <= x && x <= 0x9c8)
                                } else {
                                    (0x9cb <= x && x <= 0x9ce)
                                        || x == 0x9d7
                                        || (0x9dc <= x && x <= 0x9dd)
                                }
                            } else {
                                if x < 0x9fe {
                                    (0x9df <= x && x <= 0x9e3)
                                        || (0x9e6 <= x && x <= 0x9f1)
                                        || x == 0x9fc
                                } else {
                                    x == 0x9fe
                                        || (0xa01 <= x && x <= 0xa03)
                                        || (0xa05 <= x && x <= 0xa0a)
                                        || (0xa0f <= x && x <= 0xa10)
                                }
                            }
                        }
                    } else {
                        if x < 0xa66 {
                            if x < 0xa3e {
                                if x < 0xa35 {
                                    (0xa13 <= x && x <= 0xa28)
                                        || (0xa2a <= x && x <= 0xa30)
                                        || (0xa32 <= x && x <= 0xa33)
                                } else {
                                    (0xa35 <= x && x <= 0xa36)
                                        || (0xa38 <= x && x <= 0xa39)
                                        || x == 0xa3c
                                }
                            } else {
                                if x < 0xa51 {
                                    (0xa3e <= x && x <= 0xa42)
                                        || (0xa47 <= x && x <= 0xa48)
                                        || (0xa4b <= x && x <= 0xa4d)
                                } else {
                                    x == 0xa51
                                        || (0xa59 <= x && x <= 0xa5c)
                                        || x == 0xa5e
                                }
                            }
                        } else {
                            if x < 0xab2 {
                                if x < 0xa8f {
                                    (0xa66 <= x && x <= 0xa75)
                                        || (0xa81 <= x && x <= 0xa83)
                                        || (0xa85 <= x && x <= 0xa8d)
                                } else {
                                    (0xa8f <= x && x <= 0xa91)
                                        || (0xa93 <= x && x <= 0xaa8)
                                        || (0xaaa <= x && x <= 0xab0)
                                }
                            } else {
                                if x < 0xac7 {
                                    (0xab2 <= x && x <= 0xab3)
                                        || (0xab5 <= x && x <= 0xab9)
                                        || (0xabc <= x && x <= 0xac5)
                                } else {
                                    (0xac7 <= x && x <= 0xac9)
                                        || (0xacb <= x && x <= 0xacd)
                                        || x == 0xad0
                                        || (0xae0 <= x && x <= 0xae3)
                                }
                            }
                        }
                    }
                }
            } else {
                if x < 0xcb5 {
                    if x < 0xba8 {
                        if x < 0xb55 {
                            if x < 0xb2a {
                                if x < 0xb05 {
                                    (0xae6 <= x && x <= 0xaef)
                                        || (0xaf9 <= x && x <= 0xaff)
                                        || (0xb01 <= x && x <= 0xb03)
                                } else {
                                    (0xb05 <= x && x <= 0xb0c)
                                        || (0xb0f <= x && x <= 0xb10)
                                        || (0xb13 <= x && x <= 0xb28)
                                }
                            } else {
                                if x < 0xb3c {
                                    (0xb2a <= x && x <= 0xb30)
                                        || (0xb32 <= x && x <= 0xb33)
                                        || (0xb35 <= x && x <= 0xb39)
                                } else {
                                    (0xb3c <= x && x <= 0xb44)
                                        || (0xb47 <= x && x <= 0xb48)
                                        || (0xb4b <= x && x <= 0xb4d)
                                }
                            }
                        } else {
                            if x < 0xb85 {
                                if x < 0xb66 {
                                    (0xb55 <= x && x <= 0xb57)
                                        || (0xb5c <= x && x <= 0xb5d)
                                        || (0xb5f <= x && x <= 0xb63)
                                } else {
                                    (0xb66 <= x && x <= 0xb6f)
                                        || x == 0xb71
                                        || (0xb82 <= x && x <= 0xb83)
                                }
                            } else {
                                if x < 0xb99 {
                                    (0xb85 <= x && x <= 0xb8a)
                                        || (0xb8e <= x && x <= 0xb90)
                                        || (0xb92 <= x && x <= 0xb95)
                                } else {
                                    (0xb99 <= x && x <= 0xb9a)
                                        || x == 0xb9c
                                        || (0xb9e <= x && x <= 0xb9f)
                                        || (0xba3 <= x && x <= 0xba4)
                                }
                            }
                        }
                    } else {
                        if x < 0xc3c {
                            if x < 0xbd7 {
                                if x < 0xbc6 {
                                    (0xba8 <= x && x <= 0xbaa)
                                        || (0xbae <= x && x <= 0xbb9)
                                        || (0xbbe <= x && x <= 0xbc2)
                                } else {
                                    (0xbc6 <= x && x <= 0xbc8)
                                        || (0xbca <= x && x <= 0xbcd)
                                        || x == 0xbd0
                                }
                            } else {
                                if x < 0xc0e {
                                    x == 0xbd7
                                        || (0xbe6 <= x && x <= 0xbef)
                                        || (0xc00 <= x && x <= 0xc0c)
                                } else {
                                    (0xc0e <= x && x <= 0xc10)
                                        || (0xc12 <= x && x <= 0xc28)
                                        || (0xc2a <= x && x <= 0xc39)
                                }
                            }
                        } else {
                            if x < 0xc60 {
                                if x < 0xc55 {
                                    (0xc3c <= x && x <= 0xc44)
                                        || (0xc46 <= x && x <= 0xc48)
                                        || (0xc4a <= x && x <= 0xc4d)
                                } else {
                                    (0xc55 <= x && x <= 0xc56)
                                        || (0xc58 <= x && x <= 0xc5a)
                                        || x == 0xc5d
                                }
                            } else {
                                if x < 0xc85 {
                                    (0xc60 <= x && x <= 0xc63)
                                        || (0xc66 <= x && x <= 0xc6f)
                                        || (0xc80 <= x && x <= 0xc83)
                                } else {
                                    (0xc85 <= x && x <= 0xc8c)
                                        || (0xc8e <= x && x <= 0xc90)
                                        || (0xc92 <= x && x <= 0xca8)
                                        || (0xcaa <= x && x <= 0xcb3)
                                }
                            }
                        }
                    }
                } else {
                    if x < 0xdcf {
                        if x < 0xd46 {
                            if x < 0xce0 {
                                if x < 0xcca {
                                    (0xcb5 <= x && x <= 0xcb9)
                                        || (0xcbc <= x && x <= 0xcc4)
                                        || (0xcc6 <= x && x <= 0xcc8)
                                } else {
                                    (0xcca <= x && x <= 0xccd)
                                        || (0xcd5 <= x && x <= 0xcd6)
                                        || (0xcdd <= x && x <= 0xcde)
                                }
                            } else {
                                if x < 0xd00 {
                                    (0xce0 <= x && x <= 0xce3)
                                        || (0xce6 <= x && x <= 0xcef)
                                        || (0xcf1 <= x && x <= 0xcf3)
                                } else {
                                    (0xd00 <= x && x <= 0xd0c)
                                        || (0xd0e <= x && x <= 0xd10)
                                        || (0xd12 <= x && x <= 0xd44)
                                }
                            }
                        } else {
                            if x < 0xd81 {
                                if x < 0xd5f {
                                    (0xd46 <= x && x <= 0xd48)
                                        || (0xd4a <= x && x <= 0xd4e)
                                        || (0xd54 <= x && x <= 0xd57)
                                } else {
                                    (0xd5f <= x && x <= 0xd63)
                                        || (0xd66 <= x && x <= 0xd6f)
                                        || (0xd7a <= x && x <= 0xd7f)
                                }
                            } else {
                                if x < 0xdb3 {
                                    (0xd81 <= x && x <= 0xd83)
                                        || (0xd85 <= x && x <= 0xd96)
                                        || (0xd9a <= x && x <= 0xdb1)
                                } else {
                                    (0xdb3 <= x && x <= 0xdbb)
                                        || x == 0xdbd
                                        || (0xdc0 <= x && x <= 0xdc6)
                                        || x == 0xdca
                                }
                            }
                        }
                    } else {
                        if x < 0xea5 {
                            if x < 0xe40 {
                                if x < 0xde6 {
                                    (0xdcf <= x && x <= 0xdd4)
                                        || x == 0xdd6
                                        || (0xdd8 <= x && x <= 0xddf)
                                } else {
                                    (0xde6 <= x && x <= 0xdef)
                                        || (0xdf2 <= x && x <= 0xdf3)
                                        || (0xe01 <= x && x <= 0xe3a)
                                }
                            } else {
                                if x < 0xe84 {
                                    (0xe40 <= x && x <= 0xe4e)
                                        || (0xe50 <= x && x <= 0xe59)
                                        || (0xe81 <= x && x <= 0xe82)
                                } else {
                                    x == 0xe84
                                        || (0xe86 <= x && x <= 0xe8a)
                                        || (0xe8c <= x && x <= 0xea3)
                                }
                            }
                        } else {
                            if x < 0xedc {
                                if x < 0xec6 {
                                    x == 0xea5
                                        || (0xea7 <= x && x <= 0xebd)
                                        || (0xec0 <= x && x <= 0xec4)
                                } else {
                                    x == 0xec6
                                        || (0xec8 <= x && x <= 0xece)
                                        || (0xed0 <= x && x <= 0xed9)
                                }
                            } else {
                                if x < 0xf20 {
                                    (0xedc <= x && x <= 0xedf)
                                        || x == 0xf00
                                        || (0xf18 <= x && x <= 0xf19)
                                } else {
                                    (0xf20 <= x && x <= 0xf29)
                                        || x == 0xf35
                                        || x == 0xf37
                                        || x == 0xf39
                                }
                            }
                        }
                    }
                }
            }
        } else {
            if x < 0x203f {
                if x < 0x1820 {
                    if x < 0x12c8 {
                        if x < 0x10fc {
                            if x < 0x1000 {
                                if x < 0xf86 {
                                    (0xf3e <= x && x <= 0xf47)
                                        || (0xf49 <= x && x <= 0xf6c)
                                        || (0xf71 <= x && x <= 0xf84)
                                } else {
                                    (0xf86 <= x && x <= 0xf97)
                                        || (0xf99 <= x && x <= 0xfbc)
                                        || x == 0xfc6
                                }
                            } else {
                                if x < 0x10c7 {
                                    (0x1000 <= x && x <= 0x1049)
                                        || (0x1050 <= x && x <= 0x109d)
                                        || (0x10a0 <= x && x <= 0x10c5)
                                } else {
                                    x == 0x10c7
                                        || x == 0x10cd
                                        || (0x10d0 <= x && x <= 0x10fa)
                                }
                            }
                        } else {
                            if x < 0x128a {
                                if x < 0x1258 {
                                    (0x10fc <= x && x <= 0x1248)
                                        || (0x124a <= x && x <= 0x124d)
                                        || (0x1250 <= x && x <= 0x1256)
                                } else {
                                    x == 0x1258
                                        || (0x125a <= x && x <= 0x125d)
                                        || (0x1260 <= x && x <= 0x1288)
                                }
                            } else {
                                if x < 0x12b8 {
                                    (0x128a <= x && x <= 0x128d)
                                        || (0x1290 <= x && x <= 0x12b0)
                                        || (0x12b2 <= x && x <= 0x12b5)
                                } else {
                                    (0x12b8 <= x && x <= 0x12be)
                                        || x == 0x12c0
                                        || (0x12c2 <= x && x <= 0x12c5)
                                }
                            }
                        }
                    } else {
                        if x < 0x16ee {
                            if x < 0x13a0 {
                                if x < 0x1318 {
                                    (0x12c8 <= x && x <= 0x12d6)
                                        || (0x12d8 <= x && x <= 0x1310)
                                        || (0x1312 <= x && x <= 0x1315)
                                } else {
                                    (0x1318 <= x && x <= 0x135a)
                                        || (0x135d <= x && x <= 0x135f)
                                        || (0x1380 <= x && x <= 0x138f)
                                }
                            } else {
                                if x < 0x166f {
                                    (0x13a0 <= x && x <= 0x13f5)
                                        || (0x13f8 <= x && x <= 0x13fd)
                                        || (0x1401 <= x && x <= 0x166c)
                                } else {
                                    (0x166f <= x && x <= 0x167f)
                                        || (0x1681 <= x && x <= 0x169a)
                                        || (0x16a0 <= x && x <= 0x16ea)
                                }
                            }
                        } else {
                            if x < 0x1772 {
                                if x < 0x1740 {
                                    (0x16ee <= x && x <= 0x16f8)
                                        || (0x1700 <= x && x <= 0x1715)
                                        || (0x171f <= x && x <= 0x1734)
                                } else {
                                    (0x1740 <= x && x <= 0x1753)
                                        || (0x1760 <= x && x <= 0x176c)
                                        || (0x176e <= x && x <= 0x1770)
                                }
                            } else {
                                if x < 0x17dc {
                                    (0x1772 <= x && x <= 0x1773)
                                        || (0x1780 <= x && x <= 0x17d3)
                                        || x == 0x17d7
                                } else {
                                    (0x17dc <= x && x <= 0x17dd)
                                        || (0x17e0 <= x && x <= 0x17e9)
                                        || (0x180b <= x && x <= 0x180d)
                                        || (0x180f <= x && x <= 0x1819)
                                }
                            }
                        }
                    }
                } else {
                    if x < 0x1c80 {
                        if x < 0x1a20 {
                            if x < 0x1946 {
                                if x < 0x1900 {
                                    (0x1820 <= x && x <= 0x1878)
                                        || (0x1880 <= x && x <= 0x18aa)
                                        || (0x18b0 <= x && x <= 0x18f5)
                                } else {
                                    (0x1900 <= x && x <= 0x191e)
                                        || (0x1920 <= x && x <= 0x192b)
                                        || (0x1930 <= x && x <= 0x193b)
                                }
                            } else {
                                if x < 0x19b0 {
                                    (0x1946 <= x && x <= 0x196d)
                                        || (0x1970 <= x && x <= 0x1974)
                                        || (0x1980 <= x && x <= 0x19ab)
                                } else {
                                    (0x19b0 <= x && x <= 0x19c9)
                                        || (0x19d0 <= x && x <= 0x19d9)
                                        || (0x1a00 <= x && x <= 0x1a1b)
                                }
                            }
                        } else {
                            if x < 0x1b00 {
                                if x < 0x1a90 {
                                    (0x1a20 <= x && x <= 0x1a5e)
                                        || (0x1a60 <= x && x <= 0x1a7c)
                                        || (0x1a7f <= x && x <= 0x1a89)
                                } else {
                                    (0x1a90 <= x && x <= 0x1a99)
                                        || x == 0x1aa7
                                        || (0x1ab0 <= x && x <= 0x1ace)
                                }
                            } else {
                                if x < 0x1b80 {
                                    (0x1b00 <= x && x <= 0x1b4c)
                                        || (0x1b50 <= x && x <= 0x1b59)
                                        || (0x1b6b <= x && x <= 0x1b73)
                                } else {
                                    (0x1b80 <= x && x <= 0x1bf3)
                                        || (0x1c00 <= x && x <= 0x1c37)
                                        || (0x1c40 <= x && x <= 0x1c49)
                                        || (0x1c4d <= x && x <= 0x1c7d)
                                }
                            }
                        }
                    } else {
                        if x < 0x1f5d {
                            if x < 0x1f18 {
                                if x < 0x1cd0 {
                                    (0x1c80 <= x && x <= 0x1c8a)
                                        || (0x1c90 <= x && x <= 0x1cba)
                                        || (0x1cbd <= x && x <= 0x1cbf)
                                } else {
                                    (0x1cd0 <= x && x <= 0x1cd2)
                                        || (0x1cd4 <= x && x <= 0x1cfa)
                                        || (0x1d00 <= x && x <= 0x1f15)
                                }
                            } else {
                                if x < 0x1f50 {
                                    (0x1f18 <= x && x <= 0x1f1d)
                                        || (0x1f20 <= x && x <= 0x1f45)
                                        || (0x1f48 <= x && x <= 0x1f4d)
                                } else {
                                    (0x1f50 <= x && x <= 0x1f57)
                                        || x == 0x1f59
                                        || x == 0x1f5b
                                }
                            }
                        } else {
                            if x < 0x1fc6 {
                                if x < 0x1fb6 {
                                    x == 0x1f5d
                                        || (0x1f5f <= x && x <= 0x1f7d)
                                        || (0x1f80 <= x && x <= 0x1fb4)
                                } else {
                                    (0x1fb6 <= x && x <= 0x1fbc)
                                        || x == 0x1fbe
                                        || (0x1fc2 <= x && x <= 0x1fc4)
                                }
                            } else {
                                if x < 0x1fe0 {
                                    (0x1fc6 <= x && x <= 0x1fcc)
                                        || (0x1fd0 <= x && x <= 0x1fd3)
                                        || (0x1fd6 <= x && x <= 0x1fdb)
                                } else {
                                    (0x1fe0 <= x && x <= 0x1fec)
                                        || (0x1ff2 <= x && x <= 0x1ff4)
                                        || (0x1ff6 <= x && x <= 0x1ffc)
                                        || (0x200c <= x && x <= 0x200d)
                                }
                            }
                        }
                    }
                }
            } else {
                if x < 0x31a0 {
                    if x < 0x2d2d {
                        if x < 0x2126 {
                            if x < 0x2102 {
                                if x < 0x207f {
                                    (0x203f <= x && x <= 0x2040)
                                        || x == 0x2054
                                        || x == 0x2071
                                } else {
                                    x == 0x207f
                                        || (0x2090 <= x && x <= 0x209c)
                                        || (0x20d0 <= x && x <= 0x20f0)
                                }
                            } else {
                                if x < 0x2115 {
                                    x == 0x2102
                                        || x == 0x2107
                                        || (0x210a <= x && x <= 0x2113)
                                } else {
                                    x == 0x2115
                                        || (0x2119 <= x && x <= 0x211d)
                                        || x == 0x2124
                                }
                            }
                        } else {
                            if x < 0x214e {
                                if x < 0x212f {
                                    x == 0x2126
                                        || x == 0x2128
                                        || (0x212a <= x && x <= 0x212d)
                                } else {
                                    (0x212f <= x && x <= 0x2139)
                                        || (0x213c <= x && x <= 0x213f)
                                        || (0x2145 <= x && x <= 0x2149)
                                }
                            } else {
                                if x < 0x2c00 {
                                    x == 0x214e
                                        || (0x2160 <= x && x <= 0x2188)
                                        || (0x24b6 <= x && x <= 0x24e9)
                                } else {
                                    (0x2c00 <= x && x <= 0x2ce4)
                                        || (0x2ceb <= x && x <= 0x2cf3)
                                        || (0x2d00 <= x && x <= 0x2d25)
                                        || x == 0x2d27
                                }
                            }
                        }
                    } else {
                        if x < 0x2de0 {
                            if x < 0x2db0 {
                                if x < 0x2d7f {
                                    x == 0x2d2d
                                        || (0x2d30 <= x && x <= 0x2d67)
                                        || x == 0x2d6f
                                } else {
                                    (0x2d7f <= x && x <= 0x2d96)
                                        || (0x2da0 <= x && x <= 0x2da6)
                                        || (0x2da8 <= x && x <= 0x2dae)
                                }
                            } else {
                                if x < 0x2dc8 {
                                    (0x2db0 <= x && x <= 0x2db6)
                                        || (0x2db8 <= x && x <= 0x2dbe)
                                        || (0x2dc0 <= x && x <= 0x2dc6)
                                } else {
                                    (0x2dc8 <= x && x <= 0x2dce)
                                        || (0x2dd0 <= x && x <= 0x2dd6)
                                        || (0x2dd8 <= x && x <= 0x2dde)
                                }
                            }
                        } else {
                            if x < 0x3041 {
                                if x < 0x3021 {
                                    (0x2de0 <= x && x <= 0x2dff)
                                        || x == 0x2e2f
                                        || (0x3005 <= x && x <= 0x3007)
                                } else {
                                    (0x3021 <= x && x <= 0x302f)
                                        || (0x3031 <= x && x <= 0x3035)
                                        || (0x3038 <= x && x <= 0x303c)
                                }
                            } else {
                                if x < 0x30a1 {
                                    (0x3041 <= x && x <= 0x3096)
                                        || (0x3099 <= x && x <= 0x309a)
                                        || (0x309d <= x && x <= 0x309f)
                                } else {
                                    (0x30a1 <= x && x <= 0x30fa)
                                        || (0x30fc <= x && x <= 0x30ff)
                                        || (0x3105 <= x && x <= 0x312f)
                                        || (0x3131 <= x && x <= 0x318e)
                                }
                            }
                        }
                    }
                } else {
                    if x < 0xa960 {
                        if x < 0xa78b {
                            if x < 0xa610 {
                                if x < 0x4e00 {
                                    (0x31a0 <= x && x <= 0x31bf)
                                        || (0x31f0 <= x && x <= 0x31ff)
                                        || (0x3400 <= x && x <= 0x4dbf)
                                } else {
                                    (0x4e00 <= x && x <= 0xa48c)
                                        || (0xa4d0 <= x && x <= 0xa4fd)
                                        || (0xa500 <= x && x <= 0xa60c)
                                }
                            } else {
                                if x < 0xa67f {
                                    (0xa610 <= x && x <= 0xa62b)
                                        || (0xa640 <= x && x <= 0xa672)
                                        || (0xa674 <= x && x <= 0xa67d)
                                } else {
                                    (0xa67f <= x && x <= 0xa6f1)
                                        || (0xa717 <= x && x <= 0xa71f)
                                        || (0xa722 <= x && x <= 0xa788)
                                }
                            }
                        } else {
                            if x < 0xa840 {
                                if x < 0xa7d5 {
                                    (0xa78b <= x && x <= 0xa7cd)
                                        || (0xa7d0 <= x && x <= 0xa7d1)
                                        || x == 0xa7d3
                                } else {
                                    (0xa7d5 <= x && x <= 0xa7dc)
                                        || (0xa7f2 <= x && x <= 0xa827)
                                        || x == 0xa82c
                                }
                            } else {
                                if x < 0xa8e0 {
                                    (0xa840 <= x && x <= 0xa873)
                                        || (0xa880 <= x && x <= 0xa8c5)
                                        || (0xa8d0 <= x && x <= 0xa8d9)
                                } else {
                                    (0xa8e0 <= x && x <= 0xa8f7)
                                        || x == 0xa8fb
                                        || (0xa8fd <= x && x <= 0xa92d)
                                        || (0xa930 <= x && x <= 0xa953)
                                }
                            }
                        }
                    } else {
                        if x < 0xab01 {
                            if x < 0xaa50 {
                                if x < 0xa9e0 {
                                    (0xa960 <= x && x <= 0xa97c)
                                        || (0xa980 <= x && x <= 0xa9c0)
                                        || (0xa9cf <= x && x <= 0xa9d9)
                                } else {
                                    (0xa9e0 <= x && x <= 0xa9fe)
                                        || (0xaa00 <= x && x <= 0xaa36)
                                        || (0xaa40 <= x && x <= 0xaa4d)
                                }
                            } else {
                                if x < 0xaadb {
                                    (0xaa50 <= x && x <= 0xaa59)
                                        || (0xaa60 <= x && x <= 0xaa76)
                                        || (0xaa7a <= x && x <= 0xaac2)
                                } else {
                                    (0xaadb <= x && x <= 0xaadd)
                                        || (0xaae0 <= x && x <= 0xaaef)
                                        || (0xaaf2 <= x && x <= 0xaaf6)
                                }
                            }
                        } else {
                            if x < 0xab5c {
                                if x < 0xab20 {
                                    (0xab01 <= x && x <= 0xab06)
                                        || (0xab09 <= x && x <= 0xab0e)
                                        || (0xab11 <= x && x <= 0xab16)
                                } else {
                                    (0xab20 <= x && x <= 0xab26)
                                        || (0xab28 <= x && x <= 0xab2e)
                                        || (0xab30 <= x && x <= 0xab5a)
                                }
                            } else {
                                if x < 0xabf0 {
                                    (0xab5c <= x && x <= 0xab69)
                                        || (0xab70 <= x && x <= 0xabea)
                                        || (0xabec <= x && x <= 0xabed)
                                } else {
                                    (0xabf0 <= x && x <= 0xabf9)
                                        || (0xac00 <= x && x <= 0xd7a3)
                                        || (0xd7b0 <= x && x <= 0xd7c6)
                                        || (0xd7cb <= x && x <= 0xd7fb)
                                }
                            }
                        }
                    }
                }
            }
        }
    } else {
        if x < 0x119e3 {
            if x < 0x10c00 {
                if x < 0x10400 {
                    if x < 0xff41 {
                        if x < 0xfd50 {
                            if x < 0xfb38 {
                                if x < 0xfb13 {
                                    (0xf900 <= x && x <= 0xfa6d)
                                        || (0xfa70 <= x && x <= 0xfad9)
                                        || (0xfb00 <= x && x <= 0xfb06)
                                } else {
                                    (0xfb13 <= x && x <= 0xfb17)
                                        || (0xfb1d <= x && x <= 0xfb28)
                                        || (0xfb2a <= x && x <= 0xfb36)
                                }
                            } else {
                                if x < 0xfb43 {
                                    (0xfb38 <= x && x <= 0xfb3c)
                                        || x == 0xfb3e
                                        || (0xfb40 <= x && x <= 0xfb41)
                                } else {
                                    (0xfb43 <= x && x <= 0xfb44)
                                        || (0xfb46 <= x && x <= 0xfbb1)
                                        || (0xfbd3 <= x && x <= 0xfd3d)
                                }
                            }
                        } else {
                            if x < 0xfe4d {
                                if x < 0xfe00 {
                                    (0xfd50 <= x && x <= 0xfd8f)
                                        || (0xfd92 <= x && x <= 0xfdc7)
                                        || (0xfdf0 <= x && x <= 0xfdfb)
                                } else {
                                    (0xfe00 <= x && x <= 0xfe0f)
                                        || (0xfe20 <= x && x <= 0xfe2f)
                                        || (0xfe33 <= x && x <= 0xfe34)
                                }
                            } else {
                                if x < 0xff10 {
                                    (0xfe4d <= x && x <= 0xfe4f)
                                        || (0xfe70 <= x && x <= 0xfe74)
                                        || (0xfe76 <= x && x <= 0xfefc)
                                } else {
                                    (0xff10 <= x && x <= 0xff19)
                                        || (0xff21 <= x && x <= 0xff3a)
                                        || x == 0xff3f
                                }
                            }
                        }
                    } else {
                        if x < 0x10080 {
                            if x < 0x10000 {
                                if x < 0xffca {
                                    (0xff41 <= x && x <= 0xff5a)
                                        || (0xff66 <= x && x <= 0xffbe)
                                        || (0xffc2 <= x && x <= 0xffc7)
                                } else {
                                    (0xffca <= x && x <= 0xffcf)
                                        || (0xffd2 <= x && x <= 0xffd7)
                                        || (0xffda <= x && x <= 0xffdc)
                                }
                            } else {
                                if x < 0x1003c {
                                    (0x10000 <= x && x <= 0x1000b)
                                        || (0x1000d <= x && x <= 0x10026)
                                        || (0x10028 <= x && x <= 0x1003a)
                                } else {
                                    (0x1003c <= x && x <= 0x1003d)
                                        || (0x1003f <= x && x <= 0x1004d)
                                        || (0x10050 <= x && x <= 0x1005d)
                                }
                            }
                        } else {
                            if x < 0x10300 {
                                if x < 0x10280 {
                                    (0x10080 <= x && x <= 0x100fa)
                                        || (0x10140 <= x && x <= 0x10174)
                                        || x == 0x101fd
                                } else {
                                    (0x10280 <= x && x <= 0x1029c)
                                        || (0x102a0 <= x && x <= 0x102d0)
                                        || x == 0x102e0
                                }
                            } else {
                                if x < 0x10380 {
                                    (0x10300 <= x && x <= 0x1031f)
                                        || (0x1032d <= x && x <= 0x1034a)
                                        || (0x10350 <= x && x <= 0x1037a)
                                } else {
                                    (0x10380 <= x && x <= 0x1039d)
                                        || (0x103a0 <= x && x <= 0x103c3)
                                        || (0x103c8 <= x && x <= 0x103cf)
                                        || (0x103d1 <= x && x <= 0x103d5)
                                }
                            }
                        }
                    }
                } else {
                    if x < 0x1083c {
                        if x < 0x105b3 {
                            if x < 0x10570 {
                                if x < 0x104d8 {
                                    (0x10400 <= x && x <= 0x1049d)
                                        || (0x104a0 <= x && x <= 0x104a9)
                                        || (0x104b0 <= x && x <= 0x104d3)
                                } else {
                                    (0x104d8 <= x && x <= 0x104fb)
                                        || (0x10500 <= x && x <= 0x10527)
                                        || (0x10530 <= x && x <= 0x10563)
                                }
                            } else {
                                if x < 0x10594 {
                                    (0x10570 <= x && x <= 0x1057a)
                                        || (0x1057c <= x && x <= 0x1058a)
                                        || (0x1058c <= x && x <= 0x10592)
                                } else {
                                    (0x10594 <= x && x <= 0x10595)
                                        || (0x10597 <= x && x <= 0x105a1)
                                        || (0x105a3 <= x && x <= 0x105b1)
                                }
                            }
                        } else {
                            if x < 0x10780 {
                                if x < 0x10600 {
                                    (0x105b3 <= x && x <= 0x105b9)
                                        || (0x105bb <= x && x <= 0x105bc)
                                        || (0x105c0 <= x && x <= 0x105f3)
                                } else {
                                    (0x10600 <= x && x <= 0x10736)
                                        || (0x10740 <= x && x <= 0x10755)
                                        || (0x10760 <= x && x <= 0x10767)
                                }
                            } else {
                                if x < 0x10800 {
                                    (0x10780 <= x && x <= 0x10785)
                                        || (0x10787 <= x && x <= 0x107b0)
                                        || (0x107b2 <= x && x <= 0x107ba)
                                } else {
                                    (0x10800 <= x && x <= 0x10805)
                                        || x == 0x10808
                                        || (0x1080a <= x && x <= 0x10835)
                                        || (0x10837 <= x && x <= 0x10838)
                                }
                            }
                        }
                    } else {
                        if x < 0x10a0c {
                            if x < 0x10900 {
                                if x < 0x10880 {
                                    x == 0x1083c
                                        || (0x1083f <= x && x <= 0x10855)
                                        || (0x10860 <= x && x <= 0x10876)
                                } else {
                                    (0x10880 <= x && x <= 0x1089e)
                                        || (0x108e0 <= x && x <= 0x108f2)
                                        || (0x108f4 <= x && x <= 0x108f5)
                                }
                            } else {
                                if x < 0x109be {
                                    (0x10900 <= x && x <= 0x10915)
                                        || (0x10920 <= x && x <= 0x10939)
                                        || (0x10980 <= x && x <= 0x109b7)
                                } else {
                                    (0x109be <= x && x <= 0x109bf)
                                        || (0x10a00 <= x && x <= 0x10a03)
                                        || (0x10a05 <= x && x <= 0x10a06)
                                }
                            }
                        } else {
                            if x < 0x10a80 {
                                if x < 0x10a38 {
                                    (0x10a0c <= x && x <= 0x10a13)
                                        || (0x10a15 <= x && x <= 0x10a17)
                                        || (0x10a19 <= x && x <= 0x10a35)
                                } else {
                                    (0x10a38 <= x && x <= 0x10a3a)
                                        || x == 0x10a3f
                                        || (0x10a60 <= x && x <= 0x10a7c)
                                }
                            } else {
                                if x < 0x10b00 {
                                    (0x10a80 <= x && x <= 0x10a9c)
                                        || (0x10ac0 <= x && x <= 0x10ac7)
                                        || (0x10ac9 <= x && x <= 0x10ae6)
                                } else {
                                    (0x10b00 <= x && x <= 0x10b35)
                                        || (0x10b40 <= x && x <= 0x10b55)
                                        || (0x10b60 <= x && x <= 0x10b72)
                                        || (0x10b80 <= x && x <= 0x10b91)
                                }
                            }
                        }
                    }
                }
            } else {
                if x < 0x1133b {
                    if x < 0x11136 {
                        if x < 0x10efc {
                            if x < 0x10d69 {
                                if x < 0x10d00 {
                                    (0x10c00 <= x && x <= 0x10c48)
                                        || (0x10c80 <= x && x <= 0x10cb2)
                                        || (0x10cc0 <= x && x <= 0x10cf2)
                                } else {
                                    (0x10d00 <= x && x <= 0x10d27)
                                        || (0x10d30 <= x && x <= 0x10d39)
                                        || (0x10d40 <= x && x <= 0x10d65)
                                }
                            } else {
                                if x < 0x10eab {
                                    (0x10d69 <= x && x <= 0x10d6d)
                                        || (0x10d6f <= x && x <= 0x10d85)
                                        || (0x10e80 <= x && x <= 0x10ea9)
                                } else {
                                    (0x10eab <= x && x <= 0x10eac)
                                        || (0x10eb0 <= x && x <= 0x10eb1)
                                        || (0x10ec2 <= x && x <= 0x10ec4)
                                }
                            }
                        } else {
                            if x < 0x11000 {
                                if x < 0x10f70 {
                                    (0x10efc <= x && x <= 0x10f1c)
                                        || x == 0x10f27
                                        || (0x10f30 <= x && x <= 0x10f50)
                                } else {
                                    (0x10f70 <= x && x <= 0x10f85)
                                        || (0x10fb0 <= x && x <= 0x10fc4)
                                        || (0x10fe0 <= x && x <= 0x10ff6)
                                }
                            } else {
                                if x < 0x110c2 {
                                    (0x11000 <= x && x <= 0x11046)
                                        || (0x11066 <= x && x <= 0x11075)
                                        || (0x1107f <= x && x <= 0x110ba)
                                } else {
                                    x == 0x110c2
                                        || (0x110d0 <= x && x <= 0x110e8)
                                        || (0x110f0 <= x && x <= 0x110f9)
                                        || (0x11100 <= x && x <= 0x11134)
                                }
                            }
                        }
                    } else {
                        if x < 0x11288 {
                            if x < 0x111ce {
                                if x < 0x11176 {
                                    (0x11136 <= x && x <= 0x1113f)
                                        || (0x11144 <= x && x <= 0x11147)
                                        || (0x11150 <= x && x <= 0x11173)
                                } else {
                                    x == 0x11176
                                        || (0x11180 <= x && x <= 0x111c4)
                                        || (0x111c9 <= x && x <= 0x111cc)
                                }
                            } else {
                                if x < 0x11213 {
                                    (0x111ce <= x && x <= 0x111da)
                                        || x == 0x111dc
                                        || (0x11200 <= x && x <= 0x11211)
                                } else {
                                    (0x11213 <= x && x <= 0x11237)
                                        || (0x1123e <= x && x <= 0x11241)
                                        || (0x11280 <= x && x <= 0x11286)
                                }
                            }
                        } else {
                            if x < 0x11300 {
                                if x < 0x1129f {
                                    x == 0x11288
                                        || (0x1128a <= x && x <= 0x1128d)
                                        || (0x1128f <= x && x <= 0x1129d)
                                } else {
                                    (0x1129f <= x && x <= 0x112a8)
                                        || (0x112b0 <= x && x <= 0x112ea)
                                        || (0x112f0 <= x && x <= 0x112f9)
                                }
                            } else {
                                if x < 0x11313 {
                                    (0x11300 <= x && x <= 0x11303)
                                        || (0x11305 <= x && x <= 0x1130c)
                                        || (0x1130f <= x && x <= 0x11310)
                                } else {
                                    (0x11313 <= x && x <= 0x11328)
                                        || (0x1132a <= x && x <= 0x11330)
                                        || (0x11332 <= x && x <= 0x11333)
                                        || (0x11335 <= x && x <= 0x11339)
                                }
                            }
                        }
                    }
                } else {
                    if x < 0x115b8 {
                        if x < 0x113b7 {
                            if x < 0x11366 {
                                if x < 0x11350 {
                                    (0x1133b <= x && x <= 0x11344)
                                        || (0x11347 <= x && x <= 0x11348)
                                        || (0x1134b <= x && x <= 0x1134d)
                                } else {
                                    x == 0x11350
                                        || x == 0x11357
                                        || (0x1135d <= x && x <= 0x11363)
                                }
                            } else {
                                if x < 0x1138b {
                                    (0x11366 <= x && x <= 0x1136c)
                                        || (0x11370 <= x && x <= 0x11374)
                                        || (0x11380 <= x && x <= 0x11389)
                                } else {
                                    x == 0x1138b
                                        || x == 0x1138e
                                        || (0x11390 <= x && x <= 0x113b5)
                                }
                            }
                        } else {
                            if x < 0x11400 {
                                if x < 0x113c7 {
                                    (0x113b7 <= x && x <= 0x113c0)
                                        || x == 0x113c2
                                        || x == 0x113c5
                                } else {
                                    (0x113c7 <= x && x <= 0x113ca)
                                        || (0x113cc <= x && x <= 0x113d3)
                                        || (0x113e1 <= x && x <= 0x113e2)
                                }
                            } else {
                                if x < 0x11480 {
                                    (0x11400 <= x && x <= 0x1144a)
                                        || (0x11450 <= x && x <= 0x11459)
                                        || (0x1145e <= x && x <= 0x11461)
                                } else {
                                    (0x11480 <= x && x <= 0x114c5)
                                        || x == 0x114c7
                                        || (0x114d0 <= x && x <= 0x114d9)
                                        || (0x11580 <= x && x <= 0x115b5)
                                }
                            }
                        }
                    } else {
                        if x < 0x11800 {
                            if x < 0x116c0 {
                                if x < 0x11644 {
                                    (0x115b8 <= x && x <= 0x115c0)
                                        || (0x115d8 <= x && x <= 0x115dd)
                                        || (0x11600 <= x && x <= 0x11640)
                                } else {
                                    x == 0x11644
                                        || (0x11650 <= x && x <= 0x11659)
                                        || (0x11680 <= x && x <= 0x116b8)
                                }
                            } else {
                                if x < 0x1171d {
                                    (0x116c0 <= x && x <= 0x116c9)
                                        || (0x116d0 <= x && x <= 0x116e3)
                                        || (0x11700 <= x && x <= 0x1171a)
                                } else {
                                    (0x1171d <= x && x <= 0x1172b)
                                        || (0x11730 <= x && x <= 0x11739)
                                        || (0x11740 <= x && x <= 0x11746)
                                }
                            }
                        } else {
                            if x < 0x11918 {
                                if x < 0x11909 {
                                    (0x11800 <= x && x <= 0x1183a)
                                        || (0x118a0 <= x && x <= 0x118e9)
                                        || (0x118ff <= x && x <= 0x11906)
                                } else {
                                    x == 0x11909
                                        || (0x1190c <= x && x <= 0x11913)
                                        || (0x11915 <= x && x <= 0x11916)
                                }
                            } else {
                                if x < 0x11950 {
                                    (0x11918 <= x && x <= 0x11935)
                                        || (0x11937 <= x && x <= 0x11938)
                                        || (0x1193b <= x && x <= 0x11943)
                                } else {
                                    (0x11950 <= x && x <= 0x11959)
                                        || (0x119a0 <= x && x <= 0x119a7)
                                        || (0x119aa <= x && x <= 0x119d7)
                                        || (0x119da <= x && x <= 0x119e1)
                                }
                            }
                        }
                    }
                }
            }
        } else {
            if x < 0x1d4c5 {
                if x < 0x16af0 {
                    if x < 0x11d6a {
                        if x < 0x11c72 {
                            if x < 0x11bc0 {
                                if x < 0x11a50 {
                                    (0x119e3 <= x && x <= 0x119e4)
                                        || (0x11a00 <= x && x <= 0x11a3e)
                                        || x == 0x11a47
                                } else {
                                    (0x11a50 <= x && x <= 0x11a99)
                                        || x == 0x11a9d
                                        || (0x11ab0 <= x && x <= 0x11af8)
                                }
                            } else {
                                if x < 0x11c0a {
                                    (0x11bc0 <= x && x <= 0x11be0)
                                        || (0x11bf0 <= x && x <= 0x11bf9)
                                        || (0x11c00 <= x && x <= 0x11c08)
                                } else {
                                    (0x11c0a <= x && x <= 0x11c36)
                                        || (0x11c38 <= x && x <= 0x11c40)
                                        || (0x11c50 <= x && x <= 0x11c59)
                                }
                            }
                        } else {
                            if x < 0x11d3a {
                                if x < 0x11d00 {
                                    (0x11c72 <= x && x <= 0x11c8f)
                                        || (0x11c92 <= x && x <= 0x11ca7)
                                        || (0x11ca9 <= x && x <= 0x11cb6)
                                } else {
                                    (0x11d00 <= x && x <= 0x11d06)
                                        || (0x11d08 <= x && x <= 0x11d09)
                                        || (0x11d0b <= x && x <= 0x11d36)
                                }
                            } else {
                                if x < 0x11d50 {
                                    x == 0x11d3a
                                        || (0x11d3c <= x && x <= 0x11d3d)
                                        || (0x11d3f <= x && x <= 0x11d47)
                                } else {
                                    (0x11d50 <= x && x <= 0x11d59)
                                        || (0x11d60 <= x && x <= 0x11d65)
                                        || (0x11d67 <= x && x <= 0x11d68)
                                }
                            }
                        }
                    } else {
                        if x < 0x12480 {
                            if x < 0x11f12 {
                                if x < 0x11da0 {
                                    (0x11d6a <= x && x <= 0x11d8e)
                                        || (0x11d90 <= x && x <= 0x11d91)
                                        || (0x11d93 <= x && x <= 0x11d98)
                                } else {
                                    (0x11da0 <= x && x <= 0x11da9)
                                        || (0x11ee0 <= x && x <= 0x11ef6)
                                        || (0x11f00 <= x && x <= 0x11f10)
                                }
                            } else {
                                if x < 0x11fb0 {
                                    (0x11f12 <= x && x <= 0x11f3a)
                                        || (0x11f3e <= x && x <= 0x11f42)
                                        || (0x11f50 <= x && x <= 0x11f5a)
                                } else {
                                    x == 0x11fb0
                                        || (0x12000 <= x && x <= 0x12399)
                                        || (0x12400 <= x && x <= 0x1246e)
                                }
                            }
                        } else {
                            if x < 0x16100 {
                                if x < 0x13440 {
                                    (0x12480 <= x && x <= 0x12543)
                                        || (0x12f90 <= x && x <= 0x12ff0)
                                        || (0x13000 <= x && x <= 0x1342f)
                                } else {
                                    (0x13440 <= x && x <= 0x13455)
                                        || (0x13460 <= x && x <= 0x143fa)
                                        || (0x14400 <= x && x <= 0x14646)
                                }
                            } else {
                                if x < 0x16a60 {
                                    (0x16100 <= x && x <= 0x16139)
                                        || (0x16800 <= x && x <= 0x16a38)
                                        || (0x16a40 <= x && x <= 0x16a5e)
                                } else {
                                    (0x16a60 <= x && x <= 0x16a69)
                                        || (0x16a70 <= x && x <= 0x16abe)
                                        || (0x16ac0 <= x && x <= 0x16ac9)
                                        || (0x16ad0 <= x && x <= 0x16aed)
                                }
                            }
                        }
                    }
                } else {
                    if x < 0x1b164 {
                        if x < 0x16fe0 {
                            if x < 0x16d40 {
                                if x < 0x16b50 {
                                    (0x16af0 <= x && x <= 0x16af4)
                                        || (0x16b00 <= x && x <= 0x16b36)
                                        || (0x16b40 <= x && x <= 0x16b43)
                                } else {
                                    (0x16b50 <= x && x <= 0x16b59)
                                        || (0x16b63 <= x && x <= 0x16b77)
                                        || (0x16b7d <= x && x <= 0x16b8f)
                                }
                            } else {
                                if x < 0x16f00 {
                                    (0x16d40 <= x && x <= 0x16d6c)
                                        || (0x16d70 <= x && x <= 0x16d79)
                                        || (0x16e40 <= x && x <= 0x16e7f)
                                } else {
                                    (0x16f00 <= x && x <= 0x16f4a)
                                        || (0x16f4f <= x && x <= 0x16f87)
                                        || (0x16f8f <= x && x <= 0x16f9f)
                                }
                            }
                        } else {
                            if x < 0x1aff0 {
                                if x < 0x17000 {
                                    (0x16fe0 <= x && x <= 0x16fe1)
                                        || (0x16fe3 <= x && x <= 0x16fe4)
                                        || (0x16ff0 <= x && x <= 0x16ff1)
                                } else {
                                    (0x17000 <= x && x <= 0x187f7)
                                        || (0x18800 <= x && x <= 0x18cd5)
                                        || (0x18cff <= x && x <= 0x18d08)
                                }
                            } else {
                                if x < 0x1b000 {
                                    (0x1aff0 <= x && x <= 0x1aff3)
                                        || (0x1aff5 <= x && x <= 0x1affb)
                                        || (0x1affd <= x && x <= 0x1affe)
                                } else {
                                    (0x1b000 <= x && x <= 0x1b122)
                                        || x == 0x1b132
                                        || (0x1b150 <= x && x <= 0x1b152)
                                        || x == 0x1b155
                                }
                            }
                        }
                    } else {
                        if x < 0x1d17b {
                            if x < 0x1bc9d {
                                if x < 0x1bc70 {
                                    (0x1b164 <= x && x <= 0x1b167)
                                        || (0x1b170 <= x && x <= 0x1b2fb)
                                        || (0x1bc00 <= x && x <= 0x1bc6a)
                                } else {
                                    (0x1bc70 <= x && x <= 0x1bc7c)
                                        || (0x1bc80 <= x && x <= 0x1bc88)
                                        || (0x1bc90 <= x && x <= 0x1bc99)
                                }
                            } else {
                                if x < 0x1cf30 {
                                    (0x1bc9d <= x && x <= 0x1bc9e)
                                        || (0x1ccf0 <= x && x <= 0x1ccf9)
                                        || (0x1cf00 <= x && x <= 0x1cf2d)
                                } else {
                                    (0x1cf30 <= x && x <= 0x1cf46)
                                        || (0x1d165 <= x && x <= 0x1d169)
                                        || (0x1d16d <= x && x <= 0x1d172)
                                }
                            }
                        } else {
                            if x < 0x1d49e {
                                if x < 0x1d242 {
                                    (0x1d17b <= x && x <= 0x1d182)
                                        || (0x1d185 <= x && x <= 0x1d18b)
                                        || (0x1d1aa <= x && x <= 0x1d1ad)
                                } else {
                                    (0x1d242 <= x && x <= 0x1d244)
                                        || (0x1d400 <= x && x <= 0x1d454)
                                        || (0x1d456 <= x && x <= 0x1d49c)
                                }
                            } else {
                                if x < 0x1d4a9 {
                                    (0x1d49e <= x && x <= 0x1d49f)
                                        || x == 0x1d4a2
                                        || (0x1d4a5 <= x && x <= 0x1d4a6)
                                } else {
                                    (0x1d4a9 <= x && x <= 0x1d4ac)
                                        || (0x1d4ae <= x && x <= 0x1d4b9)
                                        || x == 0x1d4bb
                                        || (0x1d4bd <= x && x <= 0x1d4c3)
                                }
                            }
                        }
                    }
                }
            } else {
                if x < 0x1e8d0 {
                    if x < 0x1da84 {
                        if x < 0x1d6dc {
                            if x < 0x1d540 {
                                if x < 0x1d516 {
                                    (0x1d4c5 <= x && x <= 0x1d505)
                                        || (0x1d507 <= x && x <= 0x1d50a)
                                        || (0x1d50d <= x && x <= 0x1d514)
                                } else {
                                    (0x1d516 <= x && x <= 0x1d51c)
                                        || (0x1d51e <= x && x <= 0x1d539)
                                        || (0x1d53b <= x && x <= 0x1d53e)
                                }
                            } else {
                                if x < 0x1d552 {
                                    (0x1d540 <= x && x <= 0x1d544)
                                        || x == 0x1d546
                                        || (0x1d54a <= x && x <= 0x1d550)
                                } else {
                                    (0x1d552 <= x && x <= 0x1d6a5)
                                        || (0x1d6a8 <= x && x <= 0x1d6c0)
                                        || (0x1d6c2 <= x && x <= 0x1d6da)
                                }
                            }
                        } else {
                            if x < 0x1d78a {
                                if x < 0x1d736 {
                                    (0x1d6dc <= x && x <= 0x1d6fa)
                                        || (0x1d6fc <= x && x <= 0x1d714)
                                        || (0x1d716 <= x && x <= 0x1d734)
                                } else {
                                    (0x1d736 <= x && x <= 0x1d74e)
                                        || (0x1d750 <= x && x <= 0x1d76e)
                                        || (0x1d770 <= x && x <= 0x1d788)
                                }
                            } else {
                                if x < 0x1d7ce {
                                    (0x1d78a <= x && x <= 0x1d7a8)
                                        || (0x1d7aa <= x && x <= 0x1d7c2)
                                        || (0x1d7c4 <= x && x <= 0x1d7cb)
                                } else {
                                    (0x1d7ce <= x && x <= 0x1d7ff)
                                        || (0x1da00 <= x && x <= 0x1da36)
                                        || (0x1da3b <= x && x <= 0x1da6c)
                                        || x == 0x1da75
                                }
                            }
                        }
                    } else {
                        if x < 0x1e100 {
                            if x < 0x1e008 {
                                if x < 0x1df00 {
                                    x == 0x1da84
                                        || (0x1da9b <= x && x <= 0x1da9f)
                                        || (0x1daa1 <= x && x <= 0x1daaf)
                                } else {
                                    (0x1df00 <= x && x <= 0x1df1e)
                                        || (0x1df25 <= x && x <= 0x1df2a)
                                        || (0x1e000 <= x && x <= 0x1e006)
                                }
                            } else {
                                if x < 0x1e026 {
                                    (0x1e008 <= x && x <= 0x1e018)
                                        || (0x1e01b <= x && x <= 0x1e021)
                                        || (0x1e023 <= x && x <= 0x1e024)
                                } else {
                                    (0x1e026 <= x && x <= 0x1e02a)
                                        || (0x1e030 <= x && x <= 0x1e06d)
                                        || x == 0x1e08f
                                }
                            }
                        } else {
                            if x < 0x1e4d0 {
                                if x < 0x1e14e {
                                    (0x1e100 <= x && x <= 0x1e12c)
                                        || (0x1e130 <= x && x <= 0x1e13d)
                                        || (0x1e140 <= x && x <= 0x1e149)
                                } else {
                                    x == 0x1e14e
                                        || (0x1e290 <= x && x <= 0x1e2ae)
                                        || (0x1e2c0 <= x && x <= 0x1e2f9)
                                }
                            } else {
                                if x < 0x1e7e8 {
                                    (0x1e4d0 <= x && x <= 0x1e4f9)
                                        || (0x1e5d0 <= x && x <= 0x1e5fa)
                                        || (0x1e7e0 <= x && x <= 0x1e7e6)
                                } else {
                                    (0x1e7e8 <= x && x <= 0x1e7eb)
                                        || (0x1e7ed <= x && x <= 0x1e7ee)
                                        || (0x1e7f0 <= x && x <= 0x1e7fe)
                                        || (0x1e800 <= x && x <= 0x1e8c4)
                                }
                            }
                        }
                    }
                } else {
                    if x < 0x1ee64 {
                        if x < 0x1ee42 {
                            if x < 0x1ee24 {
                                if x < 0x1ee00 {
                                    (0x1e8d0 <= x && x <= 0x1e8d6)
                                        || (0x1e900 <= x && x <= 0x1e94b)
                                        || (0x1e950 <= x && x <= 0x1e959)
                                } else {
                                    (0x1ee00 <= x && x <= 0x1ee03)
                                        || (0x1ee05 <= x && x <= 0x1ee1f)
                                        || (0x1ee21 <= x && x <= 0x1ee22)
                                }
                            } else {
                                if x < 0x1ee34 {
                                    x == 0x1ee24
                                        || x == 0x1ee27
                                        || (0x1ee29 <= x && x <= 0x1ee32)
                                } else {
                                    (0x1ee34 <= x && x <= 0x1ee37)
                                        || x == 0x1ee39
                                        || x == 0x1ee3b
                                }
                            }
                        } else {
                            if x < 0x1ee54 {
                                if x < 0x1ee4b {
                                    x == 0x1ee42
                                        || x == 0x1ee47
                                        || x == 0x1ee49
                                } else {
                                    x == 0x1ee4b
                                        || (0x1ee4d <= x && x <= 0x1ee4f)
                                        || (0x1ee51 <= x && x <= 0x1ee52)
                                }
                            } else {
                                if x < 0x1ee5b {
                                    x == 0x1ee54
                                        || x == 0x1ee57
                                        || x == 0x1ee59
                                } else {
                                    x == 0x1ee5b
                                        || x == 0x1ee5d
                                        || x == 0x1ee5f
                                        || (0x1ee61 <= x && x <= 0x1ee62)
                                }
                            }
                        }
                    } else {
                        if x < 0x1f150 {
                            if x < 0x1ee80 {
                                if x < 0x1ee74 {
                                    x == 0x1ee64
                                        || (0x1ee67 <= x && x <= 0x1ee6a)
                                        || (0x1ee6c <= x && x <= 0x1ee72)
                                } else {
                                    (0x1ee74 <= x && x <= 0x1ee77)
                                        || (0x1ee79 <= x && x <= 0x1ee7c)
                                        || x == 0x1ee7e
                                }
                            } else {
                                if x < 0x1eea5 {
                                    (0x1ee80 <= x && x <= 0x1ee89)
                                        || (0x1ee8b <= x && x <= 0x1ee9b)
                                        || (0x1eea1 <= x && x <= 0x1eea3)
                                } else {
                                    (0x1eea5 <= x && x <= 0x1eea9)
                                        || (0x1eeab <= x && x <= 0x1eebb)
                                        || (0x1f130 <= x && x <= 0x1f149)
                                }
                            }
                        } else {
                            if x < 0x2b820 {
                                if x < 0x20000 {
                                    (0x1f150 <= x && x <= 0x1f169)
                                        || (0x1f170 <= x && x <= 0x1f189)
                                        || (0x1fbf0 <= x && x <= 0x1fbf9)
                                } else {
                                    (0x20000 <= x && x <= 0x2a6df)
                                        || (0x2a700 <= x && x <= 0x2b739)
                                        || (0x2b740 <= x && x <= 0x2b81d)
                                }
                            } else {
                                if x < 0x2f800 {
                                    (0x2b820 <= x && x <= 0x2cea1)
                                        || (0x2ceb0 <= x && x <= 0x2ebe0)
                                        || (0x2ebf0 <= x && x <= 0x2ee5d)
                                } else {
                                    (0x2f800 <= x && x <= 0x2fa1d)
                                        || (0x30000 <= x && x <= 0x3134a)
                                        || (0x31350 <= x && x <= 0x323af)
                                        || (0xe0100 <= x && x <= 0xe01ef)
                                }
                            }
                        }
                    }
                }
            }
        }
    }
}

} // verus!
